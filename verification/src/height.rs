//! Block references.

use vstd::prelude::*;

verus! {

/// A reference to one block, by number or by hash.
///
/// Every state query is qualified by such a reference: "state as observed
/// at this block".  Whether the block is finalized or still queryable is a
/// node-side concern, surfaced as a failure when violated.
#[derive(Debug)]
pub enum BlockRef {
    /// The block at this number.
    Number(u32),
    /// The block with this hash.
    Hash(Vec<u8>),
}

impl BlockRef {
    /// A hash reference carries a 32-byte digest.
    pub open spec fn wf(&self) -> bool {
        match self {
            BlockRef::Number(_) => true,
            BlockRef::Hash(h) => h@.len() == 32,
        }
    }
}

} // verus!
