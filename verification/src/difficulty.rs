//! The difficulty that a block must claim, given its parent.
//!
//! The rules are those of the successive eras of the protocol: the step by
//! which the difficulty moves, the time that decides its direction, the
//! minimum below which it never falls, and the exponential term of the bomb.

use crate::delays::{delayed_number, lemma_no_delays, saturating_minus, smaller};
use crate::ethash_wrapper::EthashParams;
use crate::hash::empty_list_digest;
use crate::header::Header;
use crate::uint::two_pow_256;
use vstd::arithmetic::power2::pow2;
use vstd::prelude::*;

verus! {

/// Number of blocks in one period of the exponential difficulty term.
pub const EXP_DIFF_PERIOD: u64 = 100_000;

/// The largest number of increment steps by which a late block lowers the
/// difficulty.
pub const MAX_DECREASE_STEPS: u64 = 99;

/// The larger of two numbers.
pub open spec fn larger(a: int, b: int) -> int {
    if a >= b {
        a
    } else {
        b
    }
}

impl EthashParams {
    /// The bound divisor in force at block `number`.
    pub open spec fn bound_divisor_at(&self, number: u64) -> nat {
        if number >= self.difficulty_hardfork_transition {
            self.difficulty_hardfork_bound_divisor@
        } else {
            self.difficulty_bound_divisor@
        }
    }

    /// The duration limit in force at block `number`.
    pub open spec fn duration_limit_at(&self, number: u64) -> int {
        if number >= self.expip2_transition {
            self.expip2_duration_limit as int
        } else {
            self.duration_limit as int
        }
    }

    /// The increment divisor in force at block `number`, from Homestead on.
    pub open spec fn increment_divisor_at(&self, number: u64) -> int {
        if number < self.eip100b_transition {
            self.difficulty_increment_divisor as int
        } else {
            self.metropolis_difficulty_increment_divisor as int
        }
    }

    /// The number of increment steps up to which the difficulty rises.
    pub open spec fn threshold_at(&self, number: u64, parent_has_uncles: bool) -> int {
        if number >= self.eip100b_transition && parent_has_uncles {
            2
        } else {
            1
        }
    }
}

/// Whether the parent names ommers: its ommers hash is not that of the empty
/// list.
pub open spec fn has_uncles(parent: &Header) -> bool {
    parent.uncles_hash@ != empty_list_digest()
}

impl EthashParams {
    /// The target that the era's rule derives from the parent's difficulty and
    /// the time between the two blocks, before it is held to the minimum.
    ///
    /// Before Homestead the difficulty falls by one step where the block came
    /// at least the duration limit after its parent, and rises by one step
    /// otherwise. From Homestead on it rises by one step for each increment
    /// below the threshold, and falls by one for each above it, by no more
    /// than 99 steps and never below zero.
    pub open spec fn era_target(&self, header: Header, parent: Header) -> int {
        let difficulty = parent.difficulty@ as int;
        let step = (parent.difficulty@ / self.bound_divisor_at(header.number)) as int;
        if header.number < self.homestead_transition {
            if header.timestamp >= parent.timestamp + self.duration_limit_at(header.number) {
                difficulty - step
            } else {
                difficulty + step
            }
        } else {
            let threshold = self.threshold_at(header.number, has_uncles(&parent));
            let late = (header.timestamp - parent.timestamp) / self.increment_divisor_at(
                header.number,
            );
            if late <= threshold {
                difficulty + step * (threshold - late)
            } else {
                saturating_minus(
                    difficulty,
                    step * smaller(late - threshold, MAX_DECREASE_STEPS as int),
                )
            }
        }
    }

    /// The era's target, held to the minimum difficulty.
    pub open spec fn clamped_target(&self, header: Header, parent: Header) -> int {
        larger(self.minimum_difficulty@ as int, self.era_target(header, parent))
    }

    /// The exponent of the term that the difficulty bomb adds, or `None` where
    /// it adds nothing.
    ///
    /// Nothing is added from the defuse transition on. Before the pause the
    /// exponent follows the period of the delayed block number, from the
    /// second period on. During the pause it stays at the period of the pause
    /// transition. After it, it follows the period of the block after the
    /// parent, less the periods that the pause lasted.
    pub open spec fn bomb_exponent(&self, header: Header, parent: Header) -> Option<int> {
        let period_length = EXP_DIFF_PERIOD as int;
        if header.number >= self.bomb_defuse_transition {
            None
        } else if header.number < self.ecip1010_pause_transition {
            let period = delayed_number(self.difficulty_bomb_delays@, header.number)
                / period_length;
            if period > 1 {
                Some(period - 2)
            } else {
                None
            }
        } else if header.number < self.ecip1010_continue_transition {
            Some((self.ecip1010_pause_transition as int) / period_length - 2)
        } else {
            let period = (parent.number + 1) / period_length;
            let paused = (self.ecip1010_continue_transition - self.ecip1010_pause_transition)
                / period_length;
            Some(period - paused - 2)
        }
    }

    /// The difficulty that a block must claim, given its parent.
    pub open spec fn difficulty(&self, header: Header, parent: Header) -> int {
        let target = self.clamped_target(header, parent);
        match self.bomb_exponent(header, parent) {
            None => target,
            Some(exponent) => larger(
                self.minimum_difficulty@ as int,
                target + pow2(exponent as nat),
            ),
        }
    }

    /// Whether the difficulty of `header` can be computed: the block is not
    /// the genesis block, no divisor in force is zero, from Homestead on the
    /// block is not older than its parent, the exponent of the bomb is not
    /// negative, and the result fits in 256 bits.
    pub open spec fn difficulty_defined(&self, header: Header, parent: Header) -> bool {
        &&& header.number >= 1
        &&& self.bound_divisor_at(header.number) != 0
        &&& header.number >= self.homestead_transition ==> {
            &&& self.increment_divisor_at(header.number) != 0
            &&& header.timestamp >= parent.timestamp
        }
        &&& self.bomb_defined(header, parent)
        &&& self.difficulty(header, parent) < two_pow_256()
    }

    /// Whether the exponent of the bomb is defined: it is not negative, and
    /// where the pause is over, it did not end before it began.
    pub open spec fn bomb_defined(&self, header: Header, parent: Header) -> bool {
        &&& (header.number < self.bomb_defuse_transition && header.number
            >= self.ecip1010_pause_transition && header.number
            >= self.ecip1010_continue_transition) ==> self.ecip1010_continue_transition
            >= self.ecip1010_pause_transition
        &&& self.bomb_exponent(header, parent) matches Some(exponent) ==> exponent >= 0
    }
}

/// `2^256` is [`two_pow_256`], and every smaller power of two lies below it.
pub proof fn lemma_pow2_256(exponent: nat)
    ensures
        pow2(256) == two_pow_256(),
        exponent < 256 ==> pow2(exponent) < two_pow_256(),
        exponent >= 256 ==> pow2(exponent) >= two_pow_256(),
{
    vstd::arithmetic::power2::lemma2_to64();
    vstd::arithmetic::power2::lemma_pow2_adds(64, 64);
    vstd::arithmetic::power2::lemma_pow2_adds(128, 128);
    let word = pow2(64);
    let double = pow2(128);
    assert(word * word == 0x1_0000_0000_0000_0000_0000_0000_0000_0000nat) by (nonlinear_arith)
        requires
            word == 0x1_0000_0000_0000_0000nat,
    ;
    assert(double * double == two_pow_256()) by (nonlinear_arith)
        requires
            double == 0x1_0000_0000_0000_0000_0000_0000_0000_0000nat,
            two_pow_256()
                == 0x1_0000_0000_0000_0000_0000_0000_0000_0000_0000_0000_0000_0000_0000_0000_0000_0000nat,
    ;
    if exponent < 256 {
        vstd::arithmetic::power2::lemma_pow2_strictly_increases(exponent, 256);
    } else if exponent > 256 {
        vstd::arithmetic::power2::lemma_pow2_strictly_increases(256, exponent);
    }
}

/// The difficulty of a block is never below the minimum difficulty.
pub proof fn lemma_difficulty_at_least_minimum(params: EthashParams, header: Header, parent: Header)
    ensures
        params.difficulty(header, parent) >= params.minimum_difficulty@,
{
}

/// Before Homestead the duration limit is an inclusive boundary: a block that
/// comes exactly the duration limit after its parent lowers the difficulty
/// by one step, and a block that comes one second earlier raises it by one.
pub proof fn lemma_frontier_boundary(params: EthashParams, header: Header, parent: Header)
    requires
        header.number < params.homestead_transition,
        params.bound_divisor_at(header.number) != 0,
    ensures
        header.timestamp == parent.timestamp + params.duration_limit_at(header.number)
            ==> params.era_target(header, parent) == parent.difficulty@ - parent.difficulty@
            / params.bound_divisor_at(header.number),
        header.timestamp == parent.timestamp + params.duration_limit_at(header.number) - 1
            ==> params.era_target(header, parent) == parent.difficulty@ + parent.difficulty@
            / params.bound_divisor_at(header.number),
{
}

/// Where the bomb is neither defused nor paused nor delayed, a block of the
/// second period of 100,000 blocks gets no exponential term, and a block of
/// the fourth period gets exactly two added to its target.
pub proof fn lemma_bomb_by_period(params: EthashParams, header: Header, parent: Header)
    requires
        params.bomb_defuse_transition == u64::MAX,
        params.ecip1010_pause_transition == u64::MAX,
        params.difficulty_bomb_delays@ == Map::<u64, u64>::empty(),
    ensures
        header.number / EXP_DIFF_PERIOD == 1 ==> params.difficulty(header, parent)
            == params.clamped_target(header, parent),
        header.number / EXP_DIFF_PERIOD == 3 ==> params.difficulty(header, parent)
            == params.clamped_target(header, parent) + 2,
{
    lemma_no_delays(header.number);
    vstd::arithmetic::power2::lemma2_to64();
}

} // verus!
