//! Identity of the current reference: a branch name, or, when detached or
//! unresolvable to a name, a colon-prefixed form of the pointed-to object
//! identifier.

use vstd::prelude::*;
use crate::text::str_eq;

verus! {

/// The current reference: a symbolic branch name, or the object identifier
/// the head points at when no usable name resolves.
pub enum HeadRef {
    Named(String),
    Detached(String),
}

/// The display form of a head reference: the branch name as it is, or the
/// object identifier behind a colon.
pub open spec fn head_display_spec(h: HeadRef) -> Seq<char> {
    match h {
        HeadRef::Named(n) => n@,
        HeadRef::Detached(o) => seq![':'] + o@,
    }
}

impl HeadRef {
    /// Renders the reference for the status line.
    pub fn display_name(&self) -> (r: String)
        ensures
            r@ == head_display_spec(*self),
    {
        match self {
            HeadRef::Named(n) => n.clone(),
            HeadRef::Detached(o) => {
                let mut s = String::new();
                s.append(":");
                s.append(o.as_str());
                proof {
                    reveal_strlit(":");
                    assert(s@ =~= seq![':'] + o@);
                }
                s
            },
        }
    }
}

/// The views of an optional borrowed string.
pub open spec fn opt_str_view(o: Option<&str>) -> Option<Seq<char>> {
    match o {
        Some(s) => Some(s@),
        None => None,
    }
}

/// The detached outcome: the target identifier, when one resolved, is the
/// head; with none, there is no head.
pub open spec fn detached_outcome(target: Option<Seq<char>>, r: Option<HeadRef>) -> bool {
    match target {
        Some(t) => r matches Some(h) && h matches HeadRef::Detached(o) && o@ == t,
        None => r is None,
    }
}

/// What `head_label` returns: a symbolic shorthand other than the literal
/// `HEAD` placeholder names the branch; otherwise the outcome is detached.
pub open spec fn head_label_outcome(
    shorthand: Option<Seq<char>>,
    target: Option<Seq<char>>,
    r: Option<HeadRef>,
) -> bool {
    match shorthand {
        Some(s) => if s != "HEAD"@ {
            r matches Some(h) && h matches HeadRef::Named(n) && n@ == s
        } else {
            detached_outcome(target, r)
        },
        None => detached_outcome(target, r),
    }
}

/// Chooses the head identity from the resolved reference parts.
pub fn head_label(shorthand: Option<&str>, target_hex: Option<&str>) -> (r: Option<HeadRef>)
    ensures
        head_label_outcome(opt_str_view(shorthand), opt_str_view(target_hex), r),
{
    match shorthand {
        Some(s) => {
            if !str_eq(s, "HEAD") {
                Some(HeadRef::Named(s.to_owned()))
            } else {
                match target_hex {
                    Some(t) => Some(HeadRef::Detached(t.to_owned())),
                    None => None,
                }
            }
        },
        None => {
            match target_hex {
                Some(t) => Some(HeadRef::Detached(t.to_owned())),
                None => None,
            }
        },
    }
}

} // verus!
