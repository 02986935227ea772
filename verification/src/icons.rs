//! The icon set of the status badge: seven glyphs, one per symbolic role,
//! selected by theme.

use vstd::prelude::*;

verus! {

/// The available icon themes.
#[derive(Clone, Copy, Debug, PartialEq, Eq, Structural)]
pub enum Symbols {
    Plain,
    Nerd,
}

/// The glyphs of one theme, one per role of the status badge.
pub struct Icons {
    pub ahead: &'static str,
    pub behind: &'static str,
    pub success: &'static str,
    pub index_change: &'static str,
    pub conflicted: &'static str,
    pub wt_change: &'static str,
    pub untracked: &'static str,
}

/// The glyphs of the plain theme.
pub open spec fn is_plain_icons(i: Icons) -> bool {
    i.ahead@ == "↑"@ && i.behind@ == "↓"@ && i.success@ == "✔"@ && i.index_change@ == "♦"@
        && i.conflicted@ == "✖"@ && i.wt_change@ == "✚"@ && i.untracked@ == "…"@
}

/// The glyphs of the nerd-font theme.
pub open spec fn is_nerd_icons(i: Icons) -> bool {
    i.ahead@ == "\u{eaa1}"@ && i.behind@ == "\u{ea9a}"@ && i.success@ == "\u{eab2}"@
        && i.index_change@ == "\u{f055a}"@ && i.conflicted@ == "\u{ea87}"@
        && i.wt_change@ == "\u{f440}"@ && i.untracked@ == "\u{f01d8}"@
}

impl Icons {
    /// An icon set is one of the two themes.
    pub open spec fn wf(self) -> bool {
        is_plain_icons(self) || is_nerd_icons(self)
    }

    /// The icon set of the chosen theme.
    pub fn new(set: Symbols) -> (r: Self)
        ensures
            set is Plain ==> is_plain_icons(r),
            set is Nerd ==> is_nerd_icons(r),
            r.wf(),
    {
        match set {
            Symbols::Plain => Self {
                ahead: "↑",
                behind: "↓",
                success: "✔",
                index_change: "♦",
                conflicted: "✖",
                wt_change: "✚",
                untracked: "…",
            },
            Symbols::Nerd => Self {
                ahead: "\u{eaa1}",
                behind: "\u{ea9a}",
                success: "\u{eab2}",
                index_change: "\u{f055a}",
                conflicted: "\u{ea87}",
                wt_change: "\u{f440}",
                untracked: "\u{f01d8}",
            },
        }
    }
}

} // verus!
