//! The block reward of the ECIP-1017 monetary policy: it falls by a fifth
//! from each era to the next.

use crate::uint::{
    checked_div, checked_mul, lemma_power_increases, power, two_pow_256, U256,
};
use vstd::prelude::*;

verus! {

/// The era of a block: the number of whole eras before it, where the block
/// that completes an era still belongs to that era.
pub open spec fn era_of(era_rounds: u64, block_number: u64) -> int {
    if block_number != 0 && block_number % era_rounds == 0 {
        block_number / era_rounds - 1
    } else {
        (block_number / era_rounds) as int
    }
}

/// The reward of an era: four fifths of the base reward for each era that has
/// passed, multiplied out before the one division.
pub open spec fn era_reward(base: nat, era: nat) -> nat {
    (base * power(4, era)) / power(5, era)
}

/// Whether the reward of the block can be computed: the era has a length, and
/// neither the numerator nor the denominator leaves 256 bits.
pub open spec fn reward_defined(era_rounds: u64, base: nat, block_number: u64) -> bool {
    &&& era_rounds != 0
    &&& base * power(4, era_of(era_rounds, block_number) as nat) < two_pow_256()
    &&& power(5, era_of(era_rounds, block_number) as nat) < two_pow_256()
}

/// The block that completes the first era still belongs to it, and the block
/// after it opens the second.
pub proof fn lemma_era_boundary(era_rounds: u64)
    requires
        0 < era_rounds < u64::MAX,
    ensures
        era_of(era_rounds, era_rounds) == 0,
        era_of(era_rounds, (era_rounds + 1) as u64) == 1,
{
    let rounds = era_rounds as int;
    assert(rounds / rounds == 1 && rounds % rounds == 0) by (nonlinear_arith)
        requires
            rounds > 0,
    ;
    if rounds == 1 {
        assert(2int / 1 == 2 && 2int % 1 == 0);
    } else {
        assert((rounds + 1) / rounds == 1 && (rounds + 1) % rounds == 1) by (nonlinear_arith)
            requires
                rounds > 1,
        ;
    }
}

/// The first era pays the base reward, the second four fifths of it, rounded
/// down.
pub proof fn lemma_first_eras(base: nat)
    ensures
        era_reward(base, 0) == base,
        era_reward(base, 1) == base * 4 / 5,
{
    reveal_with_fuel(power, 2);
    assert(power(4, 0) == 1 && power(5, 0) == 1);
    assert(power(4, 1) == 4 && power(5, 1) == 5);
    assert((base * 1) / 1 == base) by (nonlinear_arith);
}

/// The era of a block and the reward of that era, or `None` where they are
/// not defined.
pub fn checked_eras_block_reward(era_rounds: u64, reward: U256, block_number: u64) -> (r: Option<
    (u64, U256),
>)
    ensures
        r is Some <==> reward_defined(era_rounds, reward@, block_number),
        r matches Some((era, era_reward_paid)) ==> {
            &&& era == era_of(era_rounds, block_number)
            &&& era_reward_paid@ == era_reward(reward@, era as nat)
        },
{
    if era_rounds == 0 {
        return None;
    }
    let eras: u64 = if block_number != 0 && block_number % era_rounds == 0 {
        assert(block_number / era_rounds >= 1) by (nonlinear_arith)
            requires
                era_rounds > 0,
                block_number > 0,
                block_number % era_rounds == 0,
        ;
        block_number / era_rounds - 1
    } else {
        block_number / era_rounds
    };
    let four = U256::from_u64(4);
    let five = U256::from_u64(5);
    let mut numerator = reward;
    let mut denominator = U256::one();
    let mut passed: u64 = 0;
    assert(reward@ * power(4, 0) == reward@) by (nonlinear_arith)
        requires
            power(4, 0) == 1,
    ;
    while passed < eras
        invariant
            passed <= eras,
            era_rounds != 0,
            eras == era_of(era_rounds, block_number),
            four@ == 4,
            five@ == 5,
            numerator@ == reward@ * power(4, passed as nat),
            denominator@ == power(5, passed as nat),
        decreases eras - passed,
    {
        let ghost grown = power(4, passed as nat);
        let ghost shrunk = power(5, passed as nat);
        proof {
            lemma_power_increases(4, (passed + 1) as nat, eras as nat);
            lemma_power_increases(5, (passed + 1) as nat, eras as nat);
            assert((reward@ * grown) * 4 == reward@ * (4 * grown)) by (nonlinear_arith);
            assert(reward@ * power(4, (passed + 1) as nat) <= reward@ * power(4, eras as nat))
                by (nonlinear_arith)
                requires
                    power(4, (passed + 1) as nat) <= power(4, eras as nat),
            ;
            assert(shrunk * 5 == 5 * shrunk) by (nonlinear_arith);
        }
        numerator = match checked_mul(&numerator, &four) {
            Some(product) => product,
            None => {
                return None;
            },
        };
        denominator = match checked_mul(&denominator, &five) {
            Some(product) => product,
            None => {
                return None;
            },
        };
        passed = passed + 1;
    }
    proof {
        lemma_power_increases(5, 0, eras as nat);
        crate::uint::lemma_u256_bound(numerator);
        crate::uint::lemma_u256_bound(denominator);
    }
    match checked_div(&numerator, &denominator) {
        Some(paid) => Some((eras, paid)),
        None => None,
    }
}

/// The era of a block and the reward of that era.
pub fn ecip1017_eras_block_reward(era_rounds: u64, reward: U256, block_number: u64) -> (r: (
    u64,
    U256,
))
    requires
        reward_defined(era_rounds, reward@, block_number),
    ensures
        r.0 == era_of(era_rounds, block_number),
        r.1@ == era_reward(reward@, r.0 as nat),
{
    checked_eras_block_reward(era_rounds, reward, block_number).unwrap()
}

} // verus!
