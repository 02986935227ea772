//! Detection of an in-progress repository operation (rebase, am, merge,
//! bisect, cherry-pick) by probing a fixed list of metadata paths under the
//! repository's control directory, in strict priority order: the first
//! matching rule wins and later rules are not considered.

use vstd::prelude::*;
use crate::shorten::{last_slash_at, last_segment};

verus! {

/// The in-progress operation a probe run can identify.
#[derive(Clone, Copy, Debug, PartialEq, Eq, Structural)]
pub enum OperationTag {
    Rebase,
    Am,
    AmOrRebase,
    RebaseInteractive,
    RebaseMerge,
    Merge,
    Bisect,
    CherryPickSequence,
    CherryPick,
    CherryOrRevert,
}

/// The display label of each operation tag.
pub open spec fn label_spec(t: OperationTag) -> Seq<char> {
    match t {
        OperationTag::Rebase => "rebase"@,
        OperationTag::Am => "am"@,
        OperationTag::AmOrRebase => "am/rebase"@,
        OperationTag::RebaseInteractive => "rebase-i"@,
        OperationTag::RebaseMerge => "rebase-m"@,
        OperationTag::Merge => "merge"@,
        OperationTag::Bisect => "bisect"@,
        OperationTag::CherryPickSequence => "cherry-seq"@,
        OperationTag::CherryPick => "cherry"@,
        OperationTag::CherryOrRevert => "cherry-or-revert"@,
    }
}

impl OperationTag {
    /// The tag's display label.
    pub fn label(&self) -> (r: String)
        ensures
            r@ == label_spec(*self),
    {
        match self {
            OperationTag::Rebase => "rebase".to_owned(),
            OperationTag::Am => "am".to_owned(),
            OperationTag::AmOrRebase => "am/rebase".to_owned(),
            OperationTag::RebaseInteractive => "rebase-i".to_owned(),
            OperationTag::RebaseMerge => "rebase-m".to_owned(),
            OperationTag::Merge => "merge".to_owned(),
            OperationTag::Bisect => "bisect".to_owned(),
            OperationTag::CherryPickSequence => "cherry-seq".to_owned(),
            OperationTag::CherryPick => "cherry".to_owned(),
            OperationTag::CherryOrRevert => "cherry-or-revert".to_owned(),
        }
    }
}

/// The outcomes of the filesystem probes the detector decides over. The
/// first three are collective: they hold when any of the rebase candidate
/// directories contains the marker, or exists at all.
pub struct OperationProbes {
    pub rebasing_marker: bool,
    pub applying_marker: bool,
    pub rebase_dir: bool,
    pub rebase_merge_interactive: bool,
    pub rebase_merge: bool,
    pub merge_head: bool,
    pub bisect_log: bool,
    pub cherry_pick_head: bool,
    pub sequencer: bool,
}

/// The priority-ordered decision list over the probe outcomes: the first
/// rule whose probe holds gives the tag; with no match there is no tag.
pub open spec fn resolve_action_spec(p: OperationProbes) -> Option<OperationTag> {
    if p.rebasing_marker {
        Some(OperationTag::Rebase)
    } else if p.applying_marker {
        Some(OperationTag::Am)
    } else if p.rebase_dir {
        Some(OperationTag::AmOrRebase)
    } else if p.rebase_merge_interactive {
        Some(OperationTag::RebaseInteractive)
    } else if p.rebase_merge {
        Some(OperationTag::RebaseMerge)
    } else if p.merge_head {
        Some(OperationTag::Merge)
    } else if p.bisect_log {
        Some(OperationTag::Bisect)
    } else if p.cherry_pick_head && p.sequencer {
        Some(OperationTag::CherryPickSequence)
    } else if p.cherry_pick_head {
        Some(OperationTag::CherryPick)
    } else if p.sequencer {
        Some(OperationTag::CherryOrRevert)
    } else {
        None
    }
}

/// Resolves the probe outcomes to the highest-priority matching tag.
pub fn resolve_action(p: &OperationProbes) -> (r: Option<OperationTag>)
    ensures
        r == resolve_action_spec(*p),
{
    if p.rebasing_marker {
        Some(OperationTag::Rebase)
    } else if p.applying_marker {
        Some(OperationTag::Am)
    } else if p.rebase_dir {
        Some(OperationTag::AmOrRebase)
    } else if p.rebase_merge_interactive {
        Some(OperationTag::RebaseInteractive)
    } else if p.rebase_merge {
        Some(OperationTag::RebaseMerge)
    } else if p.merge_head {
        Some(OperationTag::Merge)
    } else if p.bisect_log {
        Some(OperationTag::Bisect)
    } else if p.cherry_pick_head && p.sequencer {
        Some(OperationTag::CherryPickSequence)
    } else if p.cherry_pick_head {
        Some(OperationTag::CherryPick)
    } else if p.sequencer {
        Some(OperationTag::CherryOrRevert)
    } else {
        None
    }
}

/// A merge probe outranks a bisect probe: when no rebase-family rule
/// matches and both a merge marker and a bisect log are present, the
/// resolved tag is the merge tag, not the bisect tag.
pub proof fn lemma_merge_precedes_bisect(p: OperationProbes)
    requires
        !p.rebasing_marker,
        !p.applying_marker,
        !p.rebase_dir,
        !p.rebase_merge_interactive,
        !p.rebase_merge,
        p.merge_head,
        p.bisect_log,
    ensures
        resolve_action_spec(p) == Some(OperationTag::Merge),
{
}

/// Joining one path component below a base path, with a single separator
/// between them.
pub open spec fn path_join_spec(base: Seq<char>, child: Seq<char>) -> Seq<char> {
    if base.len() > 0 && base.last() == '/' {
        base + child
    } else {
        base + seq!['/'] + child
    }
}

/// Appends a path component below a base path.
pub fn path_join(base: &str, child: &str) -> (r: String)
    ensures
        r@ == path_join_spec(base@, child@),
{
    let blen = base.unicode_len();
    let mut out = base.to_owned();
    if blen == 0 || base.get_char(blen - 1) != '/' {
        out.append("/");
        proof {
            reveal_strlit("/");
            assert(out@ =~= base@ + seq!['/']);
        }
        out.append(child);
        proof {
            assert(out@ =~= base@ + seq!['/'] + child@);
        }
    } else {
        out.append(child);
    }
    out
}

/// Whether a path exists on disk.
///
/// Relies on std's `Path::exists`: true exactly when the metadata of the
/// path could be read; a broken link or any probe error counts as absent.
/// The outcome depends on the state of the disk, so nothing is promised
/// of it.
#[verifier::external_body]
fn path_exists(p: &str) -> bool {
    std::path::Path::new(p).exists()
}

proof fn lemma_last_slash_take_step(s: Seq<char>, i: int)
    requires
        0 <= i < s.len(),
    ensures
        last_slash_at(s.take(i + 1)) == (if s[i] == '/' {
            i
        } else {
            last_slash_at(s.take(i))
        }),
{
    assert(s.take(i + 1).drop_last() =~= s.take(i));
    assert(s.take(i + 1).last() == s[i]);
}

/// The path's final component: everything after its last separator.
fn file_name_of(p: &str) -> (r: String)
    ensures
        r@ == last_segment(p@),
{
    let len = p.unicode_len();
    let mut slash_found = false;
    let mut last_slash: usize = 0;
    let mut i: usize = 0;
    while i < len
        invariant
            0 <= i <= len,
            len == p@.len(),
            !slash_found ==> last_slash_at(p@.take(i as int)) == -1,
            slash_found ==> last_slash < i && last_slash_at(p@.take(i as int)) == last_slash as int,
        decreases len - i,
    {
        proof {
            lemma_last_slash_take_step(p@, i as int);
        }
        if p.get_char(i) == '/' {
            slash_found = true;
            last_slash = i;
        }
        i = i + 1;
    }
    proof {
        assert(p@.take(len as int) =~= p@);
    }
    let start: usize = if slash_found {
        last_slash + 1
    } else {
        0
    };
    let seg = p.substring_char(start, len);
    proof {
        assert(p@.subrange(start as int, len as int) =~= p@.skip(last_slash_at(p@) + 1));
    }
    seg.to_owned()
}

/// Probes each path in order and hands back the final path component of
/// the first one that exists on disk; absence of all of them, or an empty
/// list, yields nothing. Which paths exist depends on the disk, so only
/// the shape of a successful answer is promised.
pub fn check_file_exists(paths: &Vec<String>) -> (r: Option<String>)
    ensures
        r matches Some(name) ==> exists|i: int|
            0 <= i < paths@.len() && name@ == last_segment(paths@[i]@),
        paths@.len() == 0 ==> r is None,
{
    let len = paths.len();
    let mut i: usize = 0;
    while i < len
        invariant
            0 <= i <= len,
            len == paths@.len(),
        decreases len - i,
    {
        if path_exists(paths[i].as_str()) {
            let name = file_name_of(paths[i].as_str());
            return Some(name);
        }
        i = i + 1;
    }
    None
}

/// Runs the probe battery below the given control directory and resolves
/// the priority decision list over the outcomes. The probes read the disk,
/// so the result is only pinned as a resolution of some probe outcome.
pub fn get_action(gitdir: &str) -> (r: Option<OperationTag>)
    ensures
        exists|p: OperationProbes| r == resolve_action_spec(p),
{
    let d0 = path_join(gitdir, "rebase-apply");
    let d1 = path_join(gitdir, "rebase");
    let parent = path_join(gitdir, "..");
    let d2 = path_join(parent.as_str(), ".dotest");

    let mut rebasing_paths: Vec<String> = Vec::new();
    rebasing_paths.push(path_join(d0.as_str(), "rebasing"));
    rebasing_paths.push(path_join(d1.as_str(), "rebasing"));
    rebasing_paths.push(path_join(d2.as_str(), "rebasing"));

    let mut applying_paths: Vec<String> = Vec::new();
    applying_paths.push(path_join(d0.as_str(), "applying"));
    applying_paths.push(path_join(d1.as_str(), "applying"));
    applying_paths.push(path_join(d2.as_str(), "applying"));

    let mut dir_paths: Vec<String> = Vec::new();
    dir_paths.push(d0);
    dir_paths.push(d1);
    dir_paths.push(d2);

    let rebase_merge_dir = path_join(gitdir, "rebase-merge");
    let dotest_merge_dir = path_join(gitdir, ".dotest-merge");

    let mut interactive_paths: Vec<String> = Vec::new();
    interactive_paths.push(path_join(rebase_merge_dir.as_str(), "interactive"));
    interactive_paths.push(path_join(dotest_merge_dir.as_str(), "interactive"));

    let mut merge_paths: Vec<String> = Vec::new();
    merge_paths.push(rebase_merge_dir);
    merge_paths.push(dotest_merge_dir);

    let probes = OperationProbes {
        rebasing_marker: check_file_exists(&rebasing_paths).is_some(),
        applying_marker: check_file_exists(&applying_paths).is_some(),
        rebase_dir: check_file_exists(&dir_paths).is_some(),
        rebase_merge_interactive: check_file_exists(&interactive_paths).is_some(),
        rebase_merge: check_file_exists(&merge_paths).is_some(),
        merge_head: path_exists(path_join(gitdir, "MERGE_HEAD").as_str()),
        bisect_log: path_exists(path_join(gitdir, "BISECT_LOG").as_str()),
        cherry_pick_head: path_exists(path_join(gitdir, "CHERRY_PICK_HEAD").as_str()),
        sequencer: path_exists(path_join(gitdir, "sequencer").as_str()),
    };
    let r = resolve_action(&probes);
    proof {
        assert(r == resolve_action_spec(probes));
    }
    r
}

} // verus!
