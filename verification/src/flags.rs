//! The change flags of one status entry.

use vstd::prelude::*;

verus! {

/// The file is new in the index.
pub const INDEX_NEW: u32 = 0x0001;

/// The file is modified in the index.
pub const INDEX_MODIFIED: u32 = 0x0002;

/// The file is deleted in the index.
pub const INDEX_DELETED: u32 = 0x0004;

/// The file is renamed in the index.
pub const INDEX_RENAMED: u32 = 0x0008;

/// The file changed its type in the index.
pub const INDEX_TYPECHANGE: u32 = 0x0010;

/// The file is untracked in the working tree.
pub const WT_NEW: u32 = 0x0080;

/// The file is modified in the working tree.
pub const WT_MODIFIED: u32 = 0x0100;

/// The file is deleted from the working tree.
pub const WT_DELETED: u32 = 0x0200;

/// The file changed its type in the working tree.
pub const WT_TYPECHANGE: u32 = 0x0400;

/// The file is renamed in the working tree.
pub const WT_RENAMED: u32 = 0x0800;

/// The index-level changes that count as staged.
pub const STAGED_MASK: u32 = 0x0007;

/// The working-tree changes that count as modified.
pub const MODIFIED_MASK: u32 = 0x0300;

/// The set of change flags that a status query reports for one path.
///
/// Only the flags are kept: no decision of this crate looks at the path.
#[derive(Clone, Copy, Debug, PartialEq, Eq, Structural)]
pub struct StatusFlags {
    pub bits: u32,
}

impl StatusFlags {
    /// Whether any flag of `mask` is set.
    pub open spec fn intersects(self, mask: u32) -> bool {
        self.bits & mask != 0
    }

    /// The entry records a change in the index: new, modified or deleted.
    pub open spec fn staged(self) -> bool {
        self.intersects(INDEX_NEW) || self.intersects(INDEX_MODIFIED) || self.intersects(
            INDEX_DELETED,
        )
    }

    /// The entry records a change in the working tree: modified or deleted.
    pub open spec fn modified(self) -> bool {
        self.intersects(WT_MODIFIED) || self.intersects(WT_DELETED)
    }

    /// The entry decides nothing by itself: neither staged nor modified.
    pub open spec fn undecided(self) -> bool {
        !self.staged() && !self.modified()
    }

    pub fn from_bits(bits: u32) -> (flags: StatusFlags)
        ensures
            flags.bits == bits,
    {
        StatusFlags { bits }
    }

    pub fn has_any(&self, mask: u32) -> (hit: bool)
        ensures
            hit == self.intersects(mask),
    {
        self.bits & mask != 0
    }

    pub fn is_staged(&self) -> (hit: bool)
        ensures
            hit == self.staged(),
    {
        proof {
            lemma_staged_mask(self.bits);
        }
        self.has_any(STAGED_MASK)
    }

    pub fn is_modified(&self) -> (hit: bool)
        ensures
            hit == self.modified(),
    {
        proof {
            lemma_modified_mask(self.bits);
        }
        self.has_any(MODIFIED_MASK)
    }
}

/// Testing against the staged mask is testing the three index flags one by one.
pub proof fn lemma_staged_mask(bits: u32)
    ensures
        (bits & STAGED_MASK != 0) == (bits & INDEX_NEW != 0 || bits & INDEX_MODIFIED != 0 || bits
            & INDEX_DELETED != 0),
{
    assert((bits & 0x0007u32 != 0) == (bits & 0x0001u32 != 0 || bits & 0x0002u32 != 0 || bits
        & 0x0004u32 != 0)) by (bit_vector);
}

/// Testing against the modified mask is testing the two working-tree flags one by one.
pub proof fn lemma_modified_mask(bits: u32)
    ensures
        (bits & MODIFIED_MASK != 0) == (bits & WT_MODIFIED != 0 || bits & WT_DELETED != 0),
{
    assert((bits & 0x0300u32 != 0) == (bits & 0x0100u32 != 0 || bits & 0x0200u32 != 0))
        by (bit_vector);
}

} // verus!
