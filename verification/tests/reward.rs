use pow_header::reward::{checked_eras_block_reward, ecip1017_eras_block_reward};
use pow_header::U256;

const ERA_ROUNDS: u64 = 5_000_000;
const BASE: u64 = 5_000_000_000_000_000_000;

#[test]
fn era_boundary_belongs_to_the_era_it_completes() {
    let (era, reward) = ecip1017_eras_block_reward(ERA_ROUNDS, U256::from_u64(BASE), 5_000_000);
    assert_eq!(era, 0);
    assert_eq!(reward, U256::from_u64(BASE));
    let (era, reward) = ecip1017_eras_block_reward(ERA_ROUNDS, U256::from_u64(BASE), 5_000_001);
    assert_eq!(era, 1);
    assert_eq!(reward, U256::from_u64(BASE / 5 * 4));
}

#[test]
fn reward_falls_by_a_fifth_each_era() {
    let base = U256::from_u64(BASE);
    assert_eq!(ecip1017_eras_block_reward(ERA_ROUNDS, base, 0), (0, U256::from_u64(BASE)));
    assert_eq!(ecip1017_eras_block_reward(ERA_ROUNDS, base, 1), (0, U256::from_u64(BASE)));
    assert_eq!(
        ecip1017_eras_block_reward(ERA_ROUNDS, base, 10_000_000),
        (1, U256::from_u64(4_000_000_000_000_000_000))
    );
    assert_eq!(
        ecip1017_eras_block_reward(ERA_ROUNDS, base, 10_000_001),
        (2, U256::from_u64(3_200_000_000_000_000_000))
    );
    assert_eq!(
        ecip1017_eras_block_reward(ERA_ROUNDS, base, 15_000_001),
        (3, U256::from_u64(2_560_000_000_000_000_000))
    );
}

#[test]
fn reward_is_divided_once_at_the_end() {
    // 7 * 4 / 5 = 5, and 7 * 16 / 25 = 4, where dividing each era would give 5 * 4 / 5 = 4.
    assert_eq!(ecip1017_eras_block_reward(10, U256::from_u64(7), 11), (1, U256::from_u64(5)));
    assert_eq!(ecip1017_eras_block_reward(10, U256::from_u64(7), 21), (2, U256::from_u64(4)));
    // 9 * 64 / 125 = 4, where dividing each era would give 7, 5, 4.
    assert_eq!(ecip1017_eras_block_reward(10, U256::from_u64(9), 31), (3, U256::from_u64(4)));
    assert_eq!(ecip1017_eras_block_reward(10, U256::from_u64(3), 31), (3, U256::from_u64(1)));
}

#[test]
fn checked_reward_agrees_where_it_is_defined() {
    for block in [0u64, 1, 4_999_999, 5_000_000, 5_000_001, 10_000_000, 25_000_001] {
        let checked = checked_eras_block_reward(ERA_ROUNDS, U256::from_u64(BASE), block);
        let plain = ecip1017_eras_block_reward(ERA_ROUNDS, U256::from_u64(BASE), block);
        assert_eq!(checked, Some(plain));
    }
}

#[test]
fn reward_is_undefined_without_an_era_length() {
    assert_eq!(checked_eras_block_reward(0, U256::from_u64(BASE), 5), None);
    assert_eq!(checked_eras_block_reward(0, U256::from_u64(BASE), 0), None);
}

#[test]
fn reward_is_undefined_past_256_bits() {
    // 5^110 fits in 256 bits and 5^111 does not.
    assert!(checked_eras_block_reward(1, U256::zero(), 111).is_some());
    assert_eq!(checked_eras_block_reward(1, U256::zero(), 111), Some((110, U256::zero())));
    assert_eq!(checked_eras_block_reward(1, U256::zero(), 112), None);
    // 4^100 * 2^64 leaves 256 bits long before 5^100 does.
    assert_eq!(checked_eras_block_reward(1, U256::from_u64(u64::MAX), 101), None);
    assert_eq!(checked_eras_block_reward(1, U256::max_value(), 2), None);
    assert_eq!(checked_eras_block_reward(1, U256::max_value(), 1), Some((0, U256::max_value())));
}
