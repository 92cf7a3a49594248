//! What a chain of headers keeps of its ends.

use crate::encoded;
use crate::hash::H256;
use crate::uint::U256;
use vstd::prelude::*;

verus! {

/// A block of the chain, by its hash, its number and the difficulty summed up
/// to it.
pub struct BlockDescriptor {
    /// Hash of the block.
    pub hash: H256,
    /// Number of the block.
    pub number: u64,
    /// Sum of the difficulties of the chain up to the block.
    pub total_difficulty: U256,
}

/// A block that may become the best of the chain.
struct Candidate {
    hash: H256,
    parent_hash: H256,
    total_difficulty: U256,
}

/// The two ends of a chain of headers.
pub struct HeaderChain {
    genesis_header: encoded::Header,
    best_block: BlockDescriptor,
}

} // verus!
