//! Per-file Git status flags and the staged-by-default classification.
//!
//! A status value is the bitset that a Git status scan reports for one
//! path: one bit per kind of change, separately for the index and the
//! working tree. The bit values follow libgit2's status flags, so the
//! binary can carry a scan result over without loss.

use vstd::prelude::*;

verus! {

/// A change recorded in the index (staged): the path is new there.
pub const INDEX_NEW: u32 = 0x0001;

/// A change recorded in the index: the path's contents were modified.
pub const INDEX_MODIFIED: u32 = 0x0002;

/// A change recorded in the index: the path was deleted.
pub const INDEX_DELETED: u32 = 0x0004;

/// A change recorded in the index: the path was renamed.
pub const INDEX_RENAMED: u32 = 0x0008;

/// A change recorded in the index: the path's file type changed.
pub const INDEX_TYPECHANGE: u32 = 0x0010;

/// A working-tree change: the path is untracked.
pub const WT_NEW: u32 = 0x0080;

/// A working-tree change: the path's contents were modified.
pub const WT_MODIFIED: u32 = 0x0100;

/// A working-tree change: the path was deleted.
pub const WT_DELETED: u32 = 0x0200;

/// A working-tree change: the path's file type changed.
pub const WT_TYPECHANGE: u32 = 0x0400;

/// A working-tree change: the path was renamed.
pub const WT_RENAMED: u32 = 0x0800;

/// The path is ignored and never offered for staging.
pub const IGNORED: u32 = 0x4000;

/// The path carries unresolved merge conflicts.
pub const CONFLICTED: u32 = 0x8000;

/// The status bitset of one path, as a Git status scan reports it.
#[derive(Clone, Copy, PartialEq, Eq, Structural, Debug)]
pub struct Status {
    pub bits: u32,
}

impl Status {
    /// Whether every bit of `mask` is set in this status.
    pub open spec fn spec_contains(self, mask: u32) -> bool {
        self.bits & mask == mask
    }

    /// Whether some bit of `mask` is set in this status.
    pub open spec fn spec_intersects(self, mask: u32) -> bool {
        self.bits & mask != 0
    }

    pub fn new(bits: u32) -> (s: Status)
        ensures
            s.bits == bits,
    {
        Status { bits }
    }

    pub fn contains(self, mask: u32) -> (r: bool)
        ensures
            r == self.spec_contains(mask),
    {
        self.bits & mask == mask
    }

    pub fn intersects(self, mask: u32) -> (r: bool)
        ensures
            r == self.spec_intersects(mask),
    {
        self.bits & mask != 0
    }
}

/// A path is pre-selected for staging when the index already records a
/// change for it, when it carries a merge conflict, or when it is
/// untracked; a path whose only changes sit in the working tree is not.
pub open spec fn is_staged_spec(s: Status) -> bool {
    ||| s.spec_contains(INDEX_NEW)
    ||| s.spec_contains(INDEX_MODIFIED)
    ||| s.spec_contains(INDEX_DELETED)
    ||| s.spec_contains(INDEX_RENAMED)
    ||| s.spec_contains(INDEX_TYPECHANGE)
    ||| s.spec_contains(CONFLICTED)
    ||| s.spec_contains(WT_NEW)
}

/// Decides whether a status entry starts out checked in the staging
/// checklist.
pub fn is_staged(s: Status) -> (r: bool)
    ensures
        r == is_staged_spec(s),
{
    if s.contains(INDEX_NEW) || s.contains(INDEX_MODIFIED) || s.contains(INDEX_DELETED)
        || s.contains(INDEX_RENAMED) || s.contains(INDEX_TYPECHANGE) || s.contains(CONFLICTED) {
        true
    } else {
        s.contains(WT_NEW)
    }
}

} // verus!
