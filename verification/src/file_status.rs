//! Classification of per-path status flags into the four status categories
//! of the prompt badge. Each path carries a bitmask of status flags; a path
//! counts toward a category when its flags intersect the category's mask,
//! at most once per category.

use vstd::prelude::*;

verus! {

// The flag bits mirror the repository backend's status bits.
pub const INDEX_NEW: u32 = 0x1;

pub const INDEX_MODIFIED: u32 = 0x2;

pub const INDEX_DELETED: u32 = 0x4;

pub const INDEX_RENAMED: u32 = 0x8;

pub const INDEX_TYPECHANGE: u32 = 0x10;

pub const WT_NEW: u32 = 0x80;

pub const WT_MODIFIED: u32 = 0x100;

pub const WT_DELETED: u32 = 0x200;

pub const WT_TYPECHANGE: u32 = 0x400;

pub const WT_RENAMED: u32 = 0x800;

pub const CONFLICTED: u32 = 0x8000;

/// Flags that count a path as changed in the index.
pub const INDEX_CHANGE_MASK: u32 = INDEX_NEW | INDEX_MODIFIED | INDEX_DELETED | INDEX_RENAMED
    | INDEX_TYPECHANGE;

/// Flags that count a path as changed in the worktree.
pub const WT_CHANGE_MASK: u32 = WT_MODIFIED | WT_DELETED | WT_TYPECHANGE | WT_RENAMED;

/// Flag that counts a path as conflicted.
pub const CONFLICTED_MASK: u32 = CONFLICTED;

/// Flag that counts a path as untracked.
pub const UNTRACKED_MASK: u32 = WT_NEW;

/// How many entries carry at least one flag of `mask`.
pub open spec fn count_matching(flags: Seq<u32>, mask: u32) -> nat
    decreases flags.len(),
{
    if flags.len() == 0 {
        0
    } else {
        count_matching(flags.drop_last(), mask) + (if flags.last() & mask != 0 {
            1nat
        } else {
            0nat
        })
    }
}

/// The four category counts of the status badge.
pub struct FileStatusCounts {
    pub index_changed: usize,
    pub worktree_changed: usize,
    pub conflicted: usize,
    pub untracked: usize,
}

impl FileStatusCounts {
    /// All four counts are zero: nothing to report, the tree is clean.
    pub open spec fn is_clean(self) -> bool {
        self.index_changed == 0 && self.worktree_changed == 0 && self.conflicted == 0
            && self.untracked == 0
    }
}

proof fn lemma_count_matching_take_step(flags: Seq<u32>, mask: u32, i: int)
    requires
        0 <= i < flags.len(),
    ensures
        count_matching(flags.take(i + 1), mask) == count_matching(flags.take(i), mask) + (
        if flags[i] & mask != 0 {
            1nat
        } else {
            0nat
        }),
{
    assert(flags.take(i + 1).drop_last() =~= flags.take(i));
    assert(flags.take(i + 1).last() == flags[i]);
}

/// Classifies every entry's flags against the four category masks and
/// counts, per category, the entries whose flags intersect it.
pub fn count_files_statuses(flags: &Vec<u32>) -> (r: FileStatusCounts)
    ensures
        r.index_changed == count_matching(flags@, INDEX_CHANGE_MASK),
        r.worktree_changed == count_matching(flags@, WT_CHANGE_MASK),
        r.conflicted == count_matching(flags@, CONFLICTED_MASK),
        r.untracked == count_matching(flags@, UNTRACKED_MASK),
{
    let len = flags.len();
    let mut index_changed: usize = 0;
    let mut worktree_changed: usize = 0;
    let mut conflicted: usize = 0;
    let mut untracked: usize = 0;
    let mut i: usize = 0;
    while i < len
        invariant
            0 <= i <= len,
            len == flags@.len(),
            index_changed == count_matching(flags@.take(i as int), INDEX_CHANGE_MASK),
            worktree_changed == count_matching(flags@.take(i as int), WT_CHANGE_MASK),
            conflicted == count_matching(flags@.take(i as int), CONFLICTED_MASK),
            untracked == count_matching(flags@.take(i as int), UNTRACKED_MASK),
            index_changed <= i,
            worktree_changed <= i,
            conflicted <= i,
            untracked <= i,
        decreases len - i,
    {
        let f = flags[i];
        proof {
            lemma_count_matching_take_step(flags@, INDEX_CHANGE_MASK, i as int);
            lemma_count_matching_take_step(flags@, WT_CHANGE_MASK, i as int);
            lemma_count_matching_take_step(flags@, CONFLICTED_MASK, i as int);
            lemma_count_matching_take_step(flags@, UNTRACKED_MASK, i as int);
        }
        if f & INDEX_CHANGE_MASK != 0 {
            index_changed = index_changed + 1;
        }
        if f & WT_CHANGE_MASK != 0 {
            worktree_changed = worktree_changed + 1;
        }
        if f & CONFLICTED_MASK != 0 {
            conflicted = conflicted + 1;
        }
        if f & UNTRACKED_MASK != 0 {
            untracked = untracked + 1;
        }
        i = i + 1;
    }
    proof {
        assert(flags@.take(len as int) =~= flags@);
    }
    FileStatusCounts { index_changed, worktree_changed, conflicted, untracked }
}

} // verus!
