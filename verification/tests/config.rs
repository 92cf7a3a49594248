use pow_header::config::{BlockReward, EthashConfig};
use pow_header::ethash_wrapper::EthashParams;
use pow_header::U256;
use std::collections::BTreeMap;

fn bare() -> EthashConfig {
    EthashConfig {
        minimum_difficulty: U256::from_u64(131072),
        difficulty_bound_divisor: U256::from_u64(2048),
        difficulty_increment_divisor: None,
        metropolis_difficulty_increment_divisor: None,
        duration_limit: None,
        homestead_transition: None,
        block_reward: None,
        block_reward_contract_transition: None,
        difficulty_hardfork_transition: None,
        difficulty_hardfork_bound_divisor: None,
        bomb_defuse_transition: None,
        eip100b_transition: None,
        ecip1010_pause_transition: None,
        ecip1010_continue_transition: None,
        ecip1017_era_rounds: None,
        difficulty_bomb_delays: None,
        expip2_transition: None,
        expip2_duration_limit: None,
    }
}

fn word(value: u64) -> Option<U256> {
    Some(U256::from_u64(value))
}

#[test]
fn what_is_left_out_gets_its_default() {
    let params = EthashParams::from(bare());
    let mut reward = BTreeMap::new();
    reward.insert(0u64, U256::zero());
    let expected = EthashParams {
        minimum_difficulty: U256::from_u64(131072),
        difficulty_bound_divisor: U256::from_u64(2048),
        difficulty_increment_divisor: 10,
        metropolis_difficulty_increment_divisor: 9,
        duration_limit: 0,
        homestead_transition: 0,
        difficulty_hardfork_transition: u64::MAX,
        difficulty_hardfork_bound_divisor: U256::from_u64(2048),
        bomb_defuse_transition: u64::MAX,
        eip100b_transition: u64::MAX,
        ecip1010_pause_transition: u64::MAX,
        ecip1010_continue_transition: u64::MAX,
        ecip1017_era_rounds: u64::MAX,
        block_reward: reward,
        expip2_transition: u64::MAX,
        expip2_duration_limit: 30,
        block_reward_contract_transition: 0,
        difficulty_bomb_delays: BTreeMap::new(),
    };
    assert_eq!(params, expected);
}

#[test]
fn what_is_set_is_kept() {
    let config = EthashConfig {
        minimum_difficulty: U256([1, 2, 3, 4]),
        difficulty_bound_divisor: U256::from_u64(0x0800),
        difficulty_increment_divisor: word(11),
        metropolis_difficulty_increment_divisor: word(12),
        duration_limit: word(13),
        homestead_transition: word(1_150_000),
        block_reward: Some(BlockReward::Single(U256::from_u64(5_000_000_000_000_000_000))),
        block_reward_contract_transition: word(14),
        difficulty_hardfork_transition: word(15),
        difficulty_hardfork_bound_divisor: word(16),
        bomb_defuse_transition: word(17),
        eip100b_transition: word(18),
        ecip1010_pause_transition: word(3_000_000),
        ecip1010_continue_transition: word(5_000_000),
        ecip1017_era_rounds: word(5_000_000),
        difficulty_bomb_delays: Some(vec![
            (U256::from_u64(4_370_000), U256::from_u64(3_000_000)),
            (U256::from_u64(7_280_000), U256::from_u64(2_000_000)),
        ]),
        expip2_transition: word(19),
        expip2_duration_limit: word(20),
    };
    let params = EthashParams::from(config);
    assert_eq!(params.minimum_difficulty, U256([1, 2, 3, 4]));
    assert_eq!(params.difficulty_bound_divisor, U256::from_u64(2048));
    assert_eq!(params.difficulty_increment_divisor, 11);
    assert_eq!(params.metropolis_difficulty_increment_divisor, 12);
    assert_eq!(params.duration_limit, 13);
    assert_eq!(params.homestead_transition, 1_150_000);
    assert_eq!(params.block_reward_contract_transition, 14);
    assert_eq!(params.difficulty_hardfork_transition, 15);
    assert_eq!(params.difficulty_hardfork_bound_divisor, U256::from_u64(16));
    assert_eq!(params.bomb_defuse_transition, 17);
    assert_eq!(params.eip100b_transition, 18);
    assert_eq!(params.ecip1010_pause_transition, 3_000_000);
    assert_eq!(params.ecip1010_continue_transition, 5_000_000);
    assert_eq!(params.ecip1017_era_rounds, 5_000_000);
    assert_eq!(params.expip2_transition, 19);
    assert_eq!(params.expip2_duration_limit, 20);
    let reward: Vec<_> = params.block_reward.into_iter().collect();
    assert_eq!(reward, vec![(0, U256::from_u64(5_000_000_000_000_000_000))]);
    let delays: Vec<_> = params.difficulty_bomb_delays.into_iter().collect();
    assert_eq!(delays, vec![(4_370_000, 3_000_000), (7_280_000, 2_000_000)]);
}

#[test]
fn block_numbers_keep_their_low_64_bits() {
    let config = EthashConfig {
        homestead_transition: Some(U256([7, 1, 0, 0])),
        duration_limit: Some(U256([u64::MAX, u64::MAX, u64::MAX, u64::MAX])),
        bomb_defuse_transition: Some(U256([0, 0, 0, 9])),
        difficulty_hardfork_bound_divisor: Some(U256([5, 6, 7, 8])),
        ..bare()
    };
    let params = EthashParams::from(config);
    assert_eq!(params.homestead_transition, 7);
    assert_eq!(params.duration_limit, u64::MAX);
    assert_eq!(params.bomb_defuse_transition, 0);
    assert_eq!(params.difficulty_hardfork_bound_divisor, U256([5, 6, 7, 8]));
}

#[test]
fn several_rewards_are_kept_by_their_blocks() {
    let config = EthashConfig {
        block_reward: Some(BlockReward::Multi(vec![
            (U256::zero(), U256::from_u64(5)),
            (U256::from_u64(4_370_000), U256::from_u64(3)),
            (U256::from_u64(7_280_000), U256([0, 2, 0, 0])),
        ])),
        ..bare()
    };
    let reward: Vec<_> = EthashParams::from(config).block_reward.into_iter().collect();
    assert_eq!(
        reward,
        vec![
            (0, U256::from_u64(5)),
            (4_370_000, U256::from_u64(3)),
            (7_280_000, U256([0, 2, 0, 0])),
        ]
    );
    let config = EthashConfig { block_reward: Some(BlockReward::Multi(Vec::new())), ..bare() };
    assert!(EthashParams::from(config).block_reward.is_empty());
}

#[test]
fn of_two_entries_for_one_block_the_later_stays() {
    let config = EthashConfig {
        difficulty_bomb_delays: Some(vec![
            (U256::from_u64(10), U256::from_u64(1)),
            (U256::from_u64(20), U256::from_u64(2)),
            (U256([10, 1, 0, 0]), U256([3, 1, 0, 0])),
        ]),
        block_reward: Some(BlockReward::Multi(vec![
            (U256::from_u64(10), U256::from_u64(1)),
            (U256([10, 0, 1, 0]), U256::from_u64(4)),
        ])),
        ..bare()
    };
    let params = EthashParams::from(config);
    let delays: Vec<_> = params.difficulty_bomb_delays.into_iter().collect();
    assert_eq!(delays, vec![(10, 3), (20, 2)]);
    let reward: Vec<_> = params.block_reward.into_iter().collect();
    assert_eq!(reward, vec![(10, U256::from_u64(4))]);
}

#[test]
fn no_delays_where_an_empty_table_is_set() {
    let config = EthashConfig { difficulty_bomb_delays: Some(Vec::new()), ..bare() };
    assert!(EthashParams::from(config).difficulty_bomb_delays.is_empty());
}
