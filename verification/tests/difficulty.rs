use pow_header::delays::delayed_block_number;
use pow_header::ethash_wrapper::{Ethash, EthashParams};
use pow_header::header::Header;
use pow_header::pow::LightCache;
use pow_header::{Address, Bloom, H256, U256};
use std::collections::BTreeMap;

const EMPTY_LIST_HASH: [u8; 32] = [
    0x1d, 0xcc, 0x4d, 0xe8, 0xde, 0xc7, 0x5d, 0x7a, 0xab, 0x85, 0xb5, 0x67, 0xb6, 0xcc, 0xd4, 0x1a,
    0xd3, 0x12, 0x45, 0x1b, 0x94, 0x8a, 0x74, 0x13, 0xf0, 0xa1, 0x42, 0xfd, 0x40, 0xd4, 0x93, 0x47,
];

fn header(number: u64, timestamp: u64, difficulty: U256) -> Header {
    Header {
        parent_hash: H256([0u8; 32]),
        uncles_hash: H256(EMPTY_LIST_HASH),
        author: Address([0u8; 20]),
        state_root: H256([0u8; 32]),
        transactions_root: H256([0u8; 32]),
        receipts_root: H256([0u8; 32]),
        log_bloom: Bloom([0u8; 256]),
        difficulty,
        number,
        gas_limit: U256::zero(),
        gas_used: U256::zero(),
        timestamp,
        extra_data: Vec::new(),
        seal: Vec::new(),
    }
}

fn block(number: u64, timestamp: u64) -> Header {
    header(number, timestamp, U256::zero())
}

fn parent(number: u64, timestamp: u64, difficulty: u64) -> Header {
    header(number, timestamp, U256::from_u64(difficulty))
}

fn with_uncles(mut header: Header) -> Header {
    header.uncles_hash = H256([7u8; 32]);
    header
}

/// Frontier rules for every block, no bomb.
fn frontier() -> EthashParams {
    EthashParams {
        minimum_difficulty: U256::from_u64(131072),
        difficulty_bound_divisor: U256::from_u64(2048),
        difficulty_increment_divisor: 10,
        metropolis_difficulty_increment_divisor: 9,
        duration_limit: 13,
        homestead_transition: u64::MAX,
        difficulty_hardfork_transition: u64::MAX,
        difficulty_hardfork_bound_divisor: U256::from_u64(2048),
        bomb_defuse_transition: 0,
        eip100b_transition: u64::MAX,
        ecip1010_pause_transition: u64::MAX,
        ecip1010_continue_transition: u64::MAX,
        ecip1017_era_rounds: u64::MAX,
        block_reward: BTreeMap::new(),
        expip2_transition: u64::MAX,
        expip2_duration_limit: 30,
        block_reward_contract_transition: 0,
        difficulty_bomb_delays: BTreeMap::new(),
    }
}

/// Homestead rules for every block, no bomb.
fn homestead() -> EthashParams {
    EthashParams { homestead_transition: 0, ..frontier() }
}

/// EIP-100 rules for every block, no bomb.
fn metropolis() -> EthashParams {
    EthashParams { eip100b_transition: 0, ..homestead() }
}

/// Homestead rules with the bomb armed and neither paused nor delayed.
fn armed() -> EthashParams {
    EthashParams { bomb_defuse_transition: u64::MAX, ..homestead() }
}

fn engine(params: EthashParams) -> Ethash {
    let light = LightCache::new(0, 128, vec![0u8; 64]).expect("one item and one mix");
    Ethash::new(params, light)
}

fn difficulty(params: EthashParams, block: &Header, parent: &Header) -> U256 {
    let engine = engine(params);
    let checked = engine.checked_difficulty(block, parent).expect("the difficulty is defined");
    assert_eq!(engine.calculate_difficulty(block, parent), checked);
    checked
}

fn undefined(params: EthashParams, block: &Header, parent: &Header) -> bool {
    engine(params).checked_difficulty(block, parent).is_none()
}

#[test]
fn clamps_low_frontier_target_to_minimum() {
    let got = difficulty(frontier(), &block(8, 1013), &parent(7, 1000, 100000));
    assert_eq!(got, U256::from_u64(131072));
}

#[test]
fn never_returns_less_than_the_minimum() {
    let minimum = U256::from_u64(131072);
    for (timestamp, parent_difficulty) in
        [(1001u64, 0u64), (1013, 1), (1500, 131072), (99_000, 140_000), (1001, 10_000_000)]
    {
        for params in [frontier(), homestead(), metropolis(), armed()] {
            let got = difficulty(params, &block(8, timestamp), &parent(7, 1000, parent_difficulty));
            assert!(!got.lt(&minimum));
        }
    }
}

#[test]
fn gives_the_same_result_on_every_call() {
    let engine = engine(armed());
    let block = block(350_000, 1020);
    let parent = parent(349_999, 1000, 10_000_000);
    let first = engine.calculate_difficulty(&block, &parent);
    for _ in 0..10 {
        assert_eq!(engine.calculate_difficulty(&block, &parent), first);
    }
    assert_eq!(self::engine(armed()).calculate_difficulty(&block, &parent), first);
}

#[test]
fn frontier_boundary_is_inclusive_on_the_decrease_side() {
    let parent = parent(7, 1000, 1_000_000);
    let at_limit = difficulty(frontier(), &block(8, 1013), &parent);
    assert_eq!(at_limit, U256::from_u64(1_000_000 - 488));
    let before_limit = difficulty(frontier(), &block(8, 1012), &parent);
    assert_eq!(before_limit, U256::from_u64(1_000_000 + 488));
    let after_limit = difficulty(frontier(), &block(8, 5000), &parent);
    assert_eq!(after_limit, U256::from_u64(1_000_000 - 488));
}

#[test]
fn frontier_comparison_does_not_wrap() {
    let params = EthashParams { duration_limit: u64::MAX, ..frontier() };
    let got = difficulty(params, &block(8, 5), &parent(7, 10, 1_000_000));
    assert_eq!(got, U256::from_u64(1_000_000 + 488));
}

#[test]
fn expip2_changes_the_duration_limit() {
    let params = EthashParams { expip2_transition: 8, ..frontier() };
    let parent = parent(7, 1000, 1_000_000);
    assert_eq!(difficulty(params, &block(8, 1013), &parent), U256::from_u64(1_000_488));
    let params = EthashParams { expip2_transition: 8, ..frontier() };
    assert_eq!(difficulty(params, &block(8, 1030), &parent), U256::from_u64(999_512));
    let params = EthashParams { expip2_transition: 9, ..frontier() };
    assert_eq!(difficulty(params, &block(8, 1013), &parent), U256::from_u64(999_512));
}

#[test]
fn hardfork_changes_the_bound_divisor() {
    let params = EthashParams {
        difficulty_hardfork_transition: 8,
        difficulty_hardfork_bound_divisor: U256::from_u64(1000),
        ..frontier()
    };
    let got = difficulty(params, &block(8, 1001), &parent(7, 1000, 1_000_000));
    assert_eq!(got, U256::from_u64(1_001_000));
    let params = EthashParams {
        difficulty_hardfork_transition: 9,
        difficulty_hardfork_bound_divisor: U256::from_u64(1000),
        ..frontier()
    };
    let got = difficulty(params, &block(8, 1001), &parent(7, 1000, 1_000_000));
    assert_eq!(got, U256::from_u64(1_000_488));
}

#[test]
fn homestead_steps_follow_the_time_between_blocks() {
    let parent = parent(7, 1000, 10_000_000);
    assert_eq!(difficulty(homestead(), &block(8, 1005), &parent), U256::from_u64(10_004_882));
    assert_eq!(difficulty(homestead(), &block(8, 1010), &parent), U256::from_u64(10_000_000));
    assert_eq!(difficulty(homestead(), &block(8, 1019), &parent), U256::from_u64(10_000_000));
    assert_eq!(difficulty(homestead(), &block(8, 1025), &parent), U256::from_u64(9_995_118));
    assert_eq!(difficulty(homestead(), &block(8, 1035), &parent), U256::from_u64(9_990_236));
}

#[test]
fn homestead_decrease_stops_at_ninety_nine_steps() {
    let parent = parent(7, 1000, 10_000_000);
    let capped = U256::from_u64(10_000_000 - 99 * 4882);
    assert_eq!(difficulty(homestead(), &block(8, 1000 + 1000), &parent), capped);
    assert_eq!(difficulty(homestead(), &block(8, 1000 + 1009), &parent), capped);
    assert_eq!(difficulty(homestead(), &block(8, 1000 + 500_000), &parent), capped);
    let one_less = U256::from_u64(10_000_000 - 98 * 4882);
    assert_eq!(difficulty(homestead(), &block(8, 1000 + 999), &parent), one_less);
}

#[test]
fn homestead_decrease_saturates_at_zero() {
    let params = EthashParams {
        difficulty_bound_divisor: U256::from_u64(1),
        minimum_difficulty: U256::from_u64(5),
        ..homestead()
    };
    let got = difficulty(params, &block(8, 1000 + 500), &parent(7, 1000, 1_000_000));
    assert_eq!(got, U256::from_u64(5));
}

#[test]
fn homestead_decrease_saturates_when_the_product_leaves_256_bits() {
    let params = EthashParams { difficulty_bound_divisor: U256::from_u64(1), ..homestead() };
    let mut parent = parent(7, 1000, 0);
    parent.difficulty = U256::max_value();
    let got = difficulty(params, &block(8, 1000 + 500), &parent);
    assert_eq!(got, U256::from_u64(131072));
}

#[test]
fn metropolis_threshold_depends_on_the_uncles_of_the_parent() {
    let plain = parent(7, 1000, 10_000_000);
    assert_eq!(difficulty(metropolis(), &block(8, 1008), &plain), U256::from_u64(10_004_882));
    assert_eq!(difficulty(metropolis(), &block(8, 1009), &plain), U256::from_u64(10_000_000));
    assert_eq!(difficulty(metropolis(), &block(8, 1018), &plain), U256::from_u64(9_995_118));
    let uncled = with_uncles(parent(7, 1000, 10_000_000));
    assert_eq!(difficulty(metropolis(), &block(8, 1008), &uncled), U256::from_u64(10_009_764));
    assert_eq!(difficulty(metropolis(), &block(8, 1009), &uncled), U256::from_u64(10_004_882));
    assert_eq!(difficulty(metropolis(), &block(8, 1018), &uncled), U256::from_u64(10_000_000));
    assert_eq!(difficulty(metropolis(), &block(8, 1027), &uncled), U256::from_u64(9_995_118));
}

#[test]
fn uncles_do_not_count_before_eip100b() {
    let uncled = with_uncles(parent(7, 1000, 10_000_000));
    assert_eq!(difficulty(homestead(), &block(8, 1005), &uncled), U256::from_u64(10_004_882));
    assert_eq!(difficulty(homestead(), &block(8, 1010), &uncled), U256::from_u64(10_000_000));
}

#[test]
fn bomb_adds_nothing_in_the_second_period_and_two_in_the_fourth() {
    let first = difficulty(armed(), &block(99_999, 1010), &parent(99_998, 1000, 10_000_000));
    assert_eq!(first, U256::from_u64(10_000_000));
    let second = difficulty(armed(), &block(150_000, 1010), &parent(149_999, 1000, 10_000_000));
    assert_eq!(second, U256::from_u64(10_000_000));
    let third = difficulty(armed(), &block(250_000, 1010), &parent(249_999, 1000, 10_000_000));
    assert_eq!(third, U256::from_u64(10_000_001));
    let fourth = difficulty(armed(), &block(350_000, 1010), &parent(349_999, 1000, 10_000_000));
    assert_eq!(fourth, U256::from_u64(10_000_002));
}

#[test]
fn bomb_is_added_after_the_clamp() {
    let got = difficulty(armed(), &block(350_000, 1010), &parent(349_999, 1000, 1000));
    assert_eq!(got, U256::from_u64(131072 + 2));
}

#[test]
fn bomb_of_a_late_period_is_a_large_power_of_two() {
    let got = difficulty(armed(), &block(20_000_000, 1010), &parent(19_999_999, 1000, 10_000_000));
    // period 200, exponent 198: bit 198 lies in the fourth limb, at place 6.
    assert_eq!(got, U256([10_000_000, 0, 0, 1 << 6]));
}

#[test]
fn bomb_stops_at_the_defuse_transition() {
    let params = EthashParams { bomb_defuse_transition: 350_000, ..homestead() };
    let got = difficulty(params, &block(350_000, 1010), &parent(349_999, 1000, 10_000_000));
    assert_eq!(got, U256::from_u64(10_000_000));
    let params = EthashParams { bomb_defuse_transition: 350_001, ..homestead() };
    let got = difficulty(params, &block(350_000, 1010), &parent(349_999, 1000, 10_000_000));
    assert_eq!(got, U256::from_u64(10_000_002));
}

#[test]
fn every_delay_whose_block_is_reached_counts() {
    let mut delays = BTreeMap::new();
    delays.insert(200_000u64, 100_000u64);
    delays.insert(300_000u64, 100_000u64);
    delays.insert(400_000u64, 100_000u64);
    assert_eq!(delayed_block_number(&delays, 199_999), 199_999);
    assert_eq!(delayed_block_number(&delays, 200_000), 100_000);
    assert_eq!(delayed_block_number(&delays, 350_000), 150_000);
    assert_eq!(delayed_block_number(&delays, 400_000), 100_000);
    assert_eq!(delayed_block_number(&delays, 900_000), 600_000);
    assert_eq!(delayed_block_number(&BTreeMap::new(), 900_000), 900_000);

    let params = EthashParams { difficulty_bomb_delays: delays.clone(), ..armed() };
    let got = difficulty(params, &block(350_000, 1010), &parent(349_999, 1000, 10_000_000));
    assert_eq!(got, U256::from_u64(10_000_000));
    let params = EthashParams { difficulty_bomb_delays: delays, ..armed() };
    let got = difficulty(params, &block(900_000, 1010), &parent(899_999, 1000, 10_000_000));
    assert_eq!(got, U256::from_u64(10_000_000 + 16));
}

#[test]
fn delays_saturate_at_zero() {
    let mut delays = BTreeMap::new();
    delays.insert(10u64, u64::MAX);
    delays.insert(20u64, 5u64);
    assert_eq!(delayed_block_number(&delays, 9), 9);
    assert_eq!(delayed_block_number(&delays, 350_000), 0);
    let params = EthashParams { difficulty_bomb_delays: delays, ..armed() };
    let got = difficulty(params, &block(350_000, 1010), &parent(349_999, 1000, 10_000_000));
    assert_eq!(got, U256::from_u64(10_000_000));
}

fn paused() -> EthashParams {
    EthashParams {
        ecip1010_pause_transition: 3_000_000,
        ecip1010_continue_transition: 5_000_000,
        ..armed()
    }
}

#[test]
fn bomb_is_frozen_during_the_pause() {
    let frozen = 10_000_000 + (1u64 << 28);
    let before = difficulty(paused(), &block(2_999_999, 1010), &parent(2_999_998, 1000, 10_000_000));
    assert_eq!(before, U256::from_u64(10_000_000 + (1u64 << 27)));
    let first = difficulty(paused(), &block(3_000_000, 1010), &parent(2_999_999, 1000, 10_000_000));
    assert_eq!(first, U256::from_u64(frozen));
    let last = difficulty(paused(), &block(4_999_999, 1010), &parent(4_999_998, 1000, 10_000_000));
    assert_eq!(last, U256::from_u64(frozen));
}

#[test]
fn bomb_resumes_from_the_block_after_the_parent() {
    let first = difficulty(paused(), &block(5_000_000, 1010), &parent(4_999_999, 1000, 10_000_000));
    assert_eq!(first, U256::from_u64(10_000_000 + (1u64 << 28)));
    let next = difficulty(paused(), &block(5_100_000, 1010), &parent(5_099_999, 1000, 10_000_000));
    assert_eq!(next, U256::from_u64(10_000_000 + (1u64 << 29)));
    let by_parent = difficulty(paused(), &block(5_100_000, 1010), &parent(5_099_998, 1000, 10_000_000));
    assert_eq!(by_parent, U256::from_u64(10_000_000 + (1u64 << 28)));
}

#[test]
fn genesis_has_no_difficulty_to_compute() {
    assert!(undefined(frontier(), &block(0, 1013), &parent(0, 1000, 1_000_000)));
    assert!(undefined(homestead(), &block(0, 1013), &parent(0, 1000, 1_000_000)));
}

#[test]
fn zero_divisors_leave_the_difficulty_undefined() {
    let params = EthashParams { difficulty_bound_divisor: U256::zero(), ..frontier() };
    assert!(undefined(params, &block(8, 1013), &parent(7, 1000, 1_000_000)));
    let params = EthashParams { difficulty_increment_divisor: 0, ..homestead() };
    assert!(undefined(params, &block(8, 1013), &parent(7, 1000, 1_000_000)));
    let params = EthashParams { metropolis_difficulty_increment_divisor: 0, ..metropolis() };
    assert!(undefined(params, &block(8, 1013), &parent(7, 1000, 1_000_000)));
    let params = EthashParams { metropolis_difficulty_increment_divisor: 0, ..homestead() };
    assert!(!undefined(params, &block(8, 1013), &parent(7, 1000, 1_000_000)));
}

#[test]
fn a_block_older_than_its_parent_is_undefined_from_homestead_on() {
    assert!(undefined(homestead(), &block(8, 999), &parent(7, 1000, 1_000_000)));
    assert!(!undefined(homestead(), &block(8, 1000), &parent(7, 1000, 1_000_000)));
    assert!(!undefined(frontier(), &block(8, 999), &parent(7, 1000, 1_000_000)));
}

#[test]
fn a_difficulty_past_256_bits_is_undefined() {
    let mut top = parent(7, 1000, 0);
    top.difficulty = U256::max_value();
    assert!(undefined(frontier(), &block(8, 1001), &top));
    assert!(!undefined(frontier(), &block(8, 1013), &top));
    assert!(undefined(homestead(), &block(8, 1001), &top));
    // period 300, exponent 298
    assert!(undefined(armed(), &block(30_000_000, 1010), &parent(29_999_999, 1000, 10_000_000)));
    // period 257, exponent 255: the last that fits
    let got = difficulty(armed(), &block(25_700_000, 1010), &parent(25_699_999, 1000, 10_000_000));
    assert_eq!(got, U256([10_000_000, 0, 0, 1 << 63]));
    assert!(undefined(armed(), &block(25_800_000, 1010), &parent(25_799_999, 1000, 10_000_000)));
}

#[test]
fn a_negative_exponent_is_undefined() {
    let params = EthashParams {
        ecip1010_pause_transition: 100_000,
        ecip1010_continue_transition: 5_000_000,
        ..armed()
    };
    assert!(undefined(params, &block(150_000, 1010), &parent(149_999, 1000, 10_000_000)));
    let params = EthashParams {
        ecip1010_pause_transition: 3_000_000,
        ecip1010_continue_transition: 2_000_000,
        ..armed()
    };
    assert!(undefined(params, &block(3_500_000, 1010), &parent(3_499_999, 1000, 10_000_000)));
    let params = EthashParams {
        ecip1010_pause_transition: 100_000,
        ecip1010_continue_transition: 3_000_000,
        ..armed()
    };
    // period 30, paused 29: exponent -1
    assert!(undefined(params, &block(3_000_000, 1010), &parent(2_999_999, 1000, 10_000_000)));
}
