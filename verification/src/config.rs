//! The configuration from which the parameters of a chain are made.
//!
//! A configuration holds every number as it was read, 256 bits wide, and
//! leaves out what was not set. The parameters keep the low 64 bits of a
//! block number or a divisor, and a default for each value left out.

use crate::ethash_wrapper::EthashParams;
use crate::header::BlockNumber;
use crate::uint::{two_pow_64, u256_of, lemma_u256_of, U256};
use std::collections::BTreeMap;
use vstd::prelude::*;

verus! {

/// The block reward as a configuration gives it.
#[derive(Clone, Debug, PartialEq, Eq)]
pub enum BlockReward {
    /// One reward for all blocks.
    Single(U256),
    /// Several rewards, each with the block from which it holds, by ascending
    /// block.
    Multi(Vec<(U256, U256)>),
}

/// The parameters of an Ethash chain as a configuration gives them.
#[derive(Clone, Debug, PartialEq, Eq)]
pub struct EthashConfig {
    /// Minimum difficulty.
    pub minimum_difficulty: U256,
    /// Difficulty bound divisor.
    pub difficulty_bound_divisor: U256,
    /// Difficulty increment divisor; 10 where it is left out.
    pub difficulty_increment_divisor: Option<U256>,
    /// Metropolis difficulty increment divisor; 9 where it is left out.
    pub metropolis_difficulty_increment_divisor: Option<U256>,
    /// Block duration; 0 where it is left out.
    pub duration_limit: Option<U256>,
    /// Homestead transition block number; 0 where it is left out.
    pub homestead_transition: Option<U256>,
    /// Block reward; one reward of zero where it is left out.
    pub block_reward: Option<BlockReward>,
    /// Block reward contract transition block; 0 where it is left out.
    pub block_reward_contract_transition: Option<U256>,
    /// Transition block for a change of the bound divisor; never where it is
    /// left out.
    pub difficulty_hardfork_transition: Option<U256>,
    /// Bound divisor after that transition; the bound divisor where it is left
    /// out.
    pub difficulty_hardfork_bound_divisor: Option<U256>,
    /// Block from which the exponential term is no longer added; never where
    /// it is left out.
    pub bomb_defuse_transition: Option<U256>,
    /// First block under the EIP-100 rules; never where it is left out.
    pub eip100b_transition: Option<U256>,
    /// First block of the ECIP-1010 pause; never where it is left out.
    pub ecip1010_pause_transition: Option<U256>,
    /// First block after the ECIP-1010 pause; never where it is left out.
    pub ecip1010_continue_transition: Option<U256>,
    /// Number of blocks in one ECIP-1017 era; the largest number where it is
    /// left out.
    pub ecip1017_era_rounds: Option<U256>,
    /// Delays of the exponential term, each with the block from which it
    /// holds, by ascending block; none where they are left out.
    pub difficulty_bomb_delays: Option<Vec<(U256, U256)>>,
    /// EXPIP-2 block height; never where it is left out.
    pub expip2_transition: Option<U256>,
    /// EXPIP-2 duration limit; 30 where it is left out.
    pub expip2_duration_limit: Option<U256>,
}

/// The low 64 bits of a number.
pub open spec fn low_word(value: U256) -> u64 {
    (value@ % two_pow_64()) as u64
}

/// The low 64 bits of a number that was set, and `default` for one left out.
pub open spec fn word_or(setting: Option<U256>, default: u64) -> u64 {
    match setting {
        Some(value) => low_word(value),
        None => default,
    }
}

/// The table of delays that the entries give: each entry, in its turn, sets
/// the delay of its block, so that of two entries for one block the later
/// stays.
pub open spec fn delay_table(entries: Seq<(U256, U256)>) -> Map<u64, u64>
    decreases entries.len(),
{
    if entries.len() == 0 {
        Map::empty()
    } else {
        delay_table(entries.drop_last()).insert(
            low_word(entries.last().0),
            low_word(entries.last().1),
        )
    }
}

/// The table of rewards that the entries give: each entry, in its turn, sets
/// the reward of its block.
pub open spec fn reward_entries(entries: Seq<(U256, U256)>) -> Map<u64, U256>
    decreases entries.len(),
{
    if entries.len() == 0 {
        Map::empty()
    } else {
        reward_entries(entries.drop_last()).insert(
            low_word(entries.last().0),
            entries.last().1,
        )
    }
}

/// The table of rewards of a configuration.
pub open spec fn reward_table(setting: Option<BlockReward>) -> Map<u64, U256> {
    match setting {
        None => Map::empty().insert(0u64, u256_of(0)),
        Some(BlockReward::Single(reward)) => Map::empty().insert(0u64, reward),
        Some(BlockReward::Multi(entries)) => reward_entries(entries@),
    }
}

/// Sets the delay of a block.
fn set_delay(table: &mut BTreeMap<BlockNumber, BlockNumber>, block: u64, delay: u64)
    ensures
        final(table)@ == old(table)@.insert(block, delay),
{
    broadcast use vstd::laws_cmp::group_laws_cmp;

    table.insert(block, delay);
}

/// Sets the reward of a block.
fn set_reward(table: &mut BTreeMap<BlockNumber, U256>, block: u64, reward: U256)
    ensures
        final(table)@ == old(table)@.insert(block, reward),
{
    broadcast use vstd::laws_cmp::group_laws_cmp;

    table.insert(block, reward);
}

/// The low 64 bits of a number that was set, and `default` for one left out.
fn word_setting(setting: &Option<U256>, default: u64) -> (r: u64)
    ensures
        r == word_or(*setting, default),
{
    match setting {
        Some(value) => value.low_u64(),
        None => default,
    }
}

/// Builds the table of delays.
fn collect_delays(entries: &Vec<(U256, U256)>) -> (table: BTreeMap<BlockNumber, BlockNumber>)
    ensures
        table@ == delay_table(entries@),
{
    let mut table: BTreeMap<BlockNumber, BlockNumber> = BTreeMap::new();
    let mut i: usize = 0;
    while i < entries.len()
        invariant
            i <= entries.len(),
            table@ == delay_table(entries@.take(i as int)),
        decreases entries.len() - i,
    {
        assert(entries@.take(i + 1).drop_last() =~= entries@.take(i as int));
        let block = entries[i].0.low_u64();
        let delay = entries[i].1.low_u64();
        set_delay(&mut table, block, delay);
        i = i + 1;
    }
    assert(entries@.take(entries.len() as int) =~= entries@);
    table
}

/// Builds the table of rewards.
fn collect_rewards(setting: &Option<BlockReward>) -> (table: BTreeMap<BlockNumber, U256>)
    ensures
        table@ == reward_table(*setting),
{
    let mut table: BTreeMap<BlockNumber, U256> = BTreeMap::new();
    match setting {
        None => {
            let zero = U256::zero();
            proof {
                lemma_u256_of(zero);
            }
            set_reward(&mut table, 0, zero);
        },
        Some(BlockReward::Single(reward)) => {
            set_reward(&mut table, 0, *reward);
        },
        Some(BlockReward::Multi(entries)) => {
            let mut i: usize = 0;
            while i < entries.len()
                invariant
                    i <= entries.len(),
                    table@ == reward_entries(entries@.take(i as int)),
                decreases entries.len() - i,
            {
                assert(entries@.take(i + 1).drop_last() =~= entries@.take(i as int));
                let block = entries[i].0.low_u64();
                set_reward(&mut table, block, entries[i].1);
                i = i + 1;
            }
            assert(entries@.take(entries.len() as int) =~= entries@);
        },
    }
    table
}

impl EthashParams {
    /// The parameters that a configuration gives: each value that was set,
    /// and the default for each left out.
    pub fn from(p: EthashConfig) -> (params: EthashParams)
        ensures
            params.minimum_difficulty == p.minimum_difficulty,
            params.difficulty_bound_divisor == p.difficulty_bound_divisor,
            params.difficulty_increment_divisor == word_or(p.difficulty_increment_divisor, 10),
            params.metropolis_difficulty_increment_divisor == word_or(
                p.metropolis_difficulty_increment_divisor,
                9,
            ),
            params.duration_limit == word_or(p.duration_limit, 0),
            params.homestead_transition == word_or(p.homestead_transition, 0),
            params.difficulty_hardfork_transition == word_or(
                p.difficulty_hardfork_transition,
                u64::MAX,
            ),
            params.difficulty_hardfork_bound_divisor == match p.difficulty_hardfork_bound_divisor {
                Some(divisor) => divisor,
                None => p.difficulty_bound_divisor,
            },
            params.bomb_defuse_transition == word_or(p.bomb_defuse_transition, u64::MAX),
            params.eip100b_transition == word_or(p.eip100b_transition, u64::MAX),
            params.ecip1010_pause_transition == word_or(p.ecip1010_pause_transition, u64::MAX),
            params.ecip1010_continue_transition == word_or(
                p.ecip1010_continue_transition,
                u64::MAX,
            ),
            params.ecip1017_era_rounds == word_or(p.ecip1017_era_rounds, u64::MAX),
            params.block_reward@ == reward_table(p.block_reward),
            params.expip2_transition == word_or(p.expip2_transition, u64::MAX),
            params.expip2_duration_limit == word_or(p.expip2_duration_limit, 30),
            params.block_reward_contract_transition == word_or(
                p.block_reward_contract_transition,
                0,
            ),
            params.difficulty_bomb_delays@ == match p.difficulty_bomb_delays {
                Some(entries) => delay_table(entries@),
                None => Map::empty(),
            },
    {
        EthashParams {
            minimum_difficulty: p.minimum_difficulty,
            difficulty_bound_divisor: p.difficulty_bound_divisor,
            difficulty_increment_divisor: word_setting(&p.difficulty_increment_divisor, 10),
            metropolis_difficulty_increment_divisor: word_setting(
                &p.metropolis_difficulty_increment_divisor,
                9,
            ),
            duration_limit: word_setting(&p.duration_limit, 0),
            homestead_transition: word_setting(&p.homestead_transition, 0),
            difficulty_hardfork_transition: word_setting(
                &p.difficulty_hardfork_transition,
                u64::MAX,
            ),
            difficulty_hardfork_bound_divisor: match p.difficulty_hardfork_bound_divisor {
                Some(divisor) => divisor,
                None => p.difficulty_bound_divisor,
            },
            bomb_defuse_transition: word_setting(&p.bomb_defuse_transition, u64::MAX),
            eip100b_transition: word_setting(&p.eip100b_transition, u64::MAX),
            ecip1010_pause_transition: word_setting(&p.ecip1010_pause_transition, u64::MAX),
            ecip1010_continue_transition: word_setting(&p.ecip1010_continue_transition, u64::MAX),
            ecip1017_era_rounds: word_setting(&p.ecip1017_era_rounds, u64::MAX),
            block_reward: collect_rewards(&p.block_reward),
            expip2_transition: word_setting(&p.expip2_transition, u64::MAX),
            expip2_duration_limit: word_setting(&p.expip2_duration_limit, 30),
            block_reward_contract_transition: word_setting(
                &p.block_reward_contract_transition,
                0,
            ),
            difficulty_bomb_delays: match &p.difficulty_bomb_delays {
                Some(entries) => collect_delays(entries),
                None => BTreeMap::new(),
            },
        }
    }
}

} // verus!
