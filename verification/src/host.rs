//! The error value used when the machine's host name cannot be read or is
//! not valid text.

use vstd::prelude::*;

verus! {

/// A host-name lookup failure, carrying a human-readable message.
#[derive(Debug)]
pub struct HostnameError {
    details: String,
}

impl HostnameError {
    /// The message the error carries.
    pub closed spec fn details_view(&self) -> Seq<char> {
        self.details@
    }

    /// Wraps a message into an error value.
    pub fn new(msg: &str) -> (r: HostnameError)
        ensures
            r.details_view() == msg@,
    {
        HostnameError { details: msg.to_owned() }
    }

    /// The message the error carries.
    pub fn description(&self) -> (r: &str)
        ensures
            r@ == self.details_view(),
    {
        self.details.as_str()
    }
}

} // verus!
