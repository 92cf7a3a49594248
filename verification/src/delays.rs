//! The delays of the difficulty bomb.
//!
//! A table gives, for some blocks, a number of blocks by which the bomb is set
//! back from that block on. All delays whose block has been reached add up.

use std::collections::BTreeMap;
use vstd::prelude::*;
use vstd::std_specs::btree::{
    axiom_increasing_seq_meaning, group_btree_axioms, increasing_seq, spec_btree_map_iter,
};
use vstd::std_specs::cmp::OrdSpec;
use vstd::std_specs::iter::IteratorSpec;

verus! {

/// `a - b`, or zero where `b` is the larger.
pub open spec fn saturating_minus(a: int, b: int) -> int {
    if a >= b {
        a - b
    } else {
        0
    }
}

/// The smaller of two numbers.
pub open spec fn smaller(a: int, b: int) -> int {
    if a <= b {
        a
    } else {
        b
    }
}

/// The sum of the delays of all entries whose block is below `bound`.
pub open spec fn delays_below(delays: Map<u64, u64>, bound: int) -> int
    decreases bound,
{
    if bound <= 0 {
        0
    } else {
        let block = bound - 1;
        let delay: int = if block <= u64::MAX && delays.contains_key(block as u64) {
            delays[block as u64] as int
        } else {
            0
        };
        delays_below(delays, block) + delay
    }
}

/// The block number from which the period of the exponential term is taken:
/// `number` less the delay of every entry whose block has been reached, and
/// zero where the delays exceed it.
pub open spec fn delayed_number(delays: Map<u64, u64>, number: u64) -> int {
    saturating_minus(number as int, delays_below(delays, number + 1))
}

/// The block of the entry at `index` of the entries in ascending order, and
/// a bound above every block past the last entry.
spec fn block_at(entries: Seq<(&u64, &u64)>, index: int) -> int {
    if 0 <= index < entries.len() {
        *entries[index].0 as int
    } else {
        u64::MAX + 1
    }
}

/// `entries` lists the entries of `delays` by ascending block.
spec fn lists_ascending(entries: Seq<(&u64, &u64)>, delays: Map<u64, u64>) -> bool {
    &&& forall|i: int, j: int| 0 <= i < j < entries.len() ==> *entries[i].0 < *entries[j].0
    &&& forall|i: int|
        0 <= i < entries.len() ==> delays.contains_key(*entries[i].0) && delays[*entries[i].0]
            == *entries[i].1
    &&& forall|block: u64|
        delays.contains_key(block) ==> exists|j: int|
            0 <= j < entries.len() && *entries[j].0 == block
}

/// Blocks without an entry add nothing to the sum.
proof fn lemma_no_entry_between(delays: Map<u64, u64>, low: int, high: int)
    requires
        0 <= low <= high,
        forall|block: u64| low <= block < high ==> !delays.contains_key(block),
    ensures
        delays_below(delays, high) == delays_below(delays, low),
    decreases high - low,
{
    if low < high {
        lemma_no_entry_between(delays, low, high - 1);
    }
}

/// Below the first entry the sum is zero.
proof fn lemma_before_first_entry(delays: Map<u64, u64>, number: u64, entries: Seq<(&u64, &u64)>)
    requires
        lists_ascending(entries, delays),
    ensures
        delays_below(delays, smaller(block_at(entries, 0), number + 1)) == 0,
{
    let bound = smaller(block_at(entries, 0), number + 1);
    assert forall|block: u64| 0 <= block < bound implies !delays.contains_key(block) by {
        if delays.contains_key(block) {
            let j = choose|j: int| 0 <= j < entries.len() && *entries[j].0 == block;
            if j > 0 {
                assert(*entries[0].0 < *entries[j].0);
            }
        }
    }
    lemma_no_entry_between(delays, 0, bound);
}

/// From one entry to the next the sum grows by the delay of the entry, where
/// its block has been reached.
proof fn lemma_past_entry(
    delays: Map<u64, u64>,
    number: u64,
    entries: Seq<(&u64, &u64)>,
    index: int,
)
    requires
        lists_ascending(entries, delays),
        0 <= index < entries.len(),
    ensures
        delays_below(delays, smaller(block_at(entries, index + 1), number + 1)) == delays_below(
            delays,
            smaller(block_at(entries, index), number + 1),
        ) + (if *entries[index].0 <= number {
            *entries[index].1 as int
        } else {
            0
        }),
{
    let block = *entries[index].0;
    if block <= number {
        let bound = smaller(block_at(entries, index + 1), number + 1);
        if index + 1 < entries.len() {
            assert(*entries[index].0 < *entries[index + 1].0);
        }
        assert forall|other: u64| block + 1 <= other < bound implies !delays.contains_key(other) by {
            if delays.contains_key(other) {
                let j = choose|j: int| 0 <= j < entries.len() && *entries[j].0 == other;
                if j < index {
                    assert(*entries[j].0 < *entries[index].0);
                } else if j > index + 1 {
                    assert(*entries[index + 1].0 < *entries[j].0);
                }
            }
        }
        lemma_no_entry_between(delays, block + 1, bound);
    } else if index + 1 < entries.len() {
        assert(*entries[index].0 < *entries[index + 1].0);
    }
}

/// Asks the map for its entries, to learn from what `iter` promises that it
/// hands them out by ascending block, each once.
fn entries_ascend(delays: &BTreeMap<u64, u64>)
    ensures
        lists_ascending(spec_btree_map_iter(delays).remaining(), delays@),
{
    broadcast use group_btree_axioms;
    broadcast use vstd::laws_cmp::group_laws_cmp;

    let entries = delays.iter();
    let ghost listed = entries.remaining();
    assert forall|i: int, j: int| 0 <= i < j < listed.len() implies *listed[i].0 < *listed[j].0 by {
        let blocks = listed.map_values(|entry: (&u64, &u64)| *entry.0);
        assert(increasing_seq(blocks));
        axiom_increasing_seq_meaning(blocks);
        assert(blocks[i].cmp_spec(&blocks[j]) is Less);
    }
    assert forall|block: u64| delays@.contains_key(block) implies exists|j: int|
        0 <= j < listed.len() && *listed[j].0 == block by {
        let entry = (&block, &delays@[block]);
        assert(listed.contains(entry));
        let j = choose|j: int| 0 <= j < listed.len() && listed[j] == entry;
        assert(*listed[j].0 == block);
    }
}

/// The block number less the delay of every entry whose block has been
/// reached, saturating at zero.
pub fn delayed_block_number(delays: &BTreeMap<u64, u64>, number: u64) -> (adjusted: u64)
    ensures
        adjusted == delayed_number(delays@, number),
{
    let mut adjusted: u64 = number;
    entries_ascend(delays);
    let ghost listed = spec_btree_map_iter(delays).remaining();
    proof {
        lemma_before_first_entry(delays@, number, listed);
    }
    for entry in walk: delays.iter()
        invariant
            walk.seq() == listed,
            lists_ascending(listed, delays@),
            adjusted == saturating_minus(
                number as int,
                delays_below(delays@, smaller(block_at(listed, walk.index()), number + 1)),
            ),
    {
        proof {
            lemma_past_entry(delays@, number, listed, walk.index());
        }
        let (block, delay) = entry;
        if number >= *block {
            adjusted = adjusted.saturating_sub(*delay);
        }
    }
    adjusted
}

/// Without entries no block number is delayed.
pub proof fn lemma_no_delays(number: u64)
    ensures
        delayed_number(Map::<u64, u64>::empty(), number) == number,
{
    lemma_no_entry_between(Map::<u64, u64>::empty(), 0, number + 1);
}

} // verus!
