use nft_staking::tier::{is_valid_tier, BASE_LOOTBOX_TIER, LOOTBOX_UNITS_PER_TIER};

#[test]
fn the_doubling_sequence_is_accepted() {
    assert_eq!(BASE_LOOTBOX_TIER, 10);
    assert_eq!(LOOTBOX_UNITS_PER_TIER, 100);
    for tier in [10u64, 20, 40, 80, 160, 320, 640, 1280] {
        assert!(is_valid_tier(tier));
    }
}

#[test]
fn every_tier_up_to_the_largest_is_accepted() {
    let mut tier: u64 = 10;
    let mut count = 0;
    loop {
        assert!(is_valid_tier(tier));
        count += 1;
        match tier.checked_mul(2) {
            Some(next) => tier = next,
            None => break,
        }
    }
    assert_eq!(count, 61);
    assert_eq!(tier, 10 * (1u64 << 60));
}

#[test]
fn numbers_off_the_sequence_are_rejected() {
    for tier in [0u64, 1, 2, 5, 9, 11, 15, 25, 30, 50, 60, 100, 159, 161, u64::MAX] {
        assert!(!is_valid_tier(tier));
    }
}

#[test]
fn powers_of_two_that_are_no_multiple_of_ten_are_rejected() {
    for k in 0..64 {
        assert!(!is_valid_tier(1u64 << k));
    }
}

#[test]
fn neighbours_of_a_tier_are_rejected() {
    let mut tier: u64 = 10;
    for _ in 0..60 {
        assert!(!is_valid_tier(tier - 1));
        assert!(!is_valid_tier(tier + 1));
        assert!(!is_valid_tier(tier + 5));
        assert!(!is_valid_tier(tier * 2 - 10) || tier == 10);
        tier *= 2;
    }
}
