use nft_staking::address::Address;
use nft_staking::catalog::{ChosenPlace, ItemCatalog, TimestampModulo};
use nft_staking::config::ProgramConfig;
use nft_staking::custody::CustodyAction;
use nft_staking::lootbox::{
    open_loobox, retrieve_item_from_lootbox, LootboxError, LootboxPointer, OpenLootbox,
    RetrieveItem,
};
use nft_staking::staking::UserStakeInfo;

fn address(n: u8) -> Address {
    Address::new([n; 32])
}

fn user() -> Address {
    address(1)
}

fn config_with_items(items: Vec<Address>) -> ProgramConfig {
    ProgramConfig {
        custody_authority: address(10),
        metadata_program: address(11),
        reward_mint: address(12),
        reward_units_per_day: 1_000_000_000_000,
        item_catalog: ItemCatalog::new(items),
    }
}

fn config() -> ProgramConfig {
    config_with_items(vec![address(20), address(21), address(22), address(23), address(24)])
}

fn earned(total: u64) -> UserStakeInfo {
    let mut record = UserStakeInfo::new(user(), address(2));
    record.total_earned = total;
    record
}

fn open_ctx(total: u64, pointer: LootboxPointer) -> OpenLootbox {
    OpenLootbox::new(user(), pointer, earned(total)).unwrap()
}

fn fresh() -> LootboxPointer {
    LootboxPointer::new(address(0))
}

#[test]
fn a_new_pointer_is_unopened() {
    let pointer = LootboxPointer::new(address(7));
    assert_eq!(pointer, LootboxPointer { mint: address(7), claimed: false, is_initialized: false });
}

#[test]
fn opening_burns_the_price_and_writes_the_pointer() {
    let mut ctx = open_ctx(1_000_000_000_000, fresh());
    let actions = open_loobox(&config(), &mut ctx, 10, 86_403, &TimestampModulo).unwrap();
    assert_eq!(actions, vec![CustodyAction::Burn { token: address(12), from: user(), amount: 1_000 }]);
    assert_eq!(
        ctx.lootbox_pointer,
        LootboxPointer { mint: address(23), claimed: false, is_initialized: true }
    );
    assert_eq!(ctx.stake_state, earned(1_000_000_000_000));
    assert_eq!(ctx.user, user());
}

#[test]
fn the_item_is_chosen_by_the_time_of_opening() {
    for (now, item) in [(0i64, 20u8), (1, 21), (4, 24), (5, 20), (-1, 24), (-5, 20), (i64::MIN, 22)] {
        let mut ctx = open_ctx(100, fresh());
        open_loobox(&config(), &mut ctx, 10, now, &TimestampModulo).unwrap();
        assert_eq!(ctx.lootbox_pointer.mint, address(item));
    }
}

#[test]
fn the_item_is_chosen_by_the_selector() {
    let mut ctx = open_ctx(100, fresh());
    open_loobox(&config(), &mut ctx, 10, 0, &ChosenPlace { place: 4 }).unwrap();
    assert_eq!(ctx.lootbox_pointer.mint, address(24));
    let mut ctx = open_ctx(100, fresh());
    open_loobox(&config(), &mut ctx, 10, 3, &ChosenPlace { place: 0 }).unwrap();
    assert_eq!(ctx.lootbox_pointer.mint, address(20));
}

#[test]
fn tier_25_is_rejected_however_much_was_earned() {
    let mut ctx = open_ctx(u64::MAX, fresh());
    let before = ctx;
    assert_eq!(
        open_loobox(&config(), &mut ctx, 25, 0, &TimestampModulo),
        Err(LootboxError::InvalidLootbox)
    );
    assert_eq!(ctx, before);
}

#[test]
fn numbers_off_the_sequence_are_invalid() {
    for tier in [0u64, 1, 9, 11, 15, 30, 50, 100, u64::MAX] {
        let mut ctx = open_ctx(u64::MAX, fresh());
        assert_eq!(
            open_loobox(&config(), &mut ctx, tier, 0, &TimestampModulo),
            Err(LootboxError::InvalidLootbox)
        );
    }
}

#[test]
fn tier_40_is_accepted_exactly_from_40_earned() {
    let mut ctx = open_ctx(39, fresh());
    let before = ctx;
    assert_eq!(
        open_loobox(&config(), &mut ctx, 40, 0, &TimestampModulo),
        Err(LootboxError::InvalidLootbox)
    );
    assert_eq!(ctx, before);
    let mut ctx = open_ctx(40, fresh());
    let actions = open_loobox(&config(), &mut ctx, 40, 0, &TimestampModulo).unwrap();
    assert_eq!(actions, vec![CustodyAction::Burn { token: address(12), from: user(), amount: 4_000 }]);
    let mut ctx = open_ctx(41, fresh());
    assert!(open_loobox(&config(), &mut ctx, 40, 0, &TimestampModulo).is_ok());
}

#[test]
fn the_largest_tier_has_a_price_beyond_64_bits() {
    let tier = 10 * (1u64 << 60);
    let mut ctx = open_ctx(u64::MAX, fresh());
    let actions = open_loobox(&config(), &mut ctx, tier, 0, &TimestampModulo).unwrap();
    assert_eq!(
        actions,
        vec![CustodyAction::Burn { token: address(12), from: user(), amount: 1_000 * (1u128 << 60) }]
    );
}

#[test]
fn an_unclaimed_box_blocks_the_next() {
    let outstanding = LootboxPointer { mint: address(20), claimed: false, is_initialized: true };
    for tier in [10u64, 25, 40, u64::MAX] {
        for total in [0u64, 40, u64::MAX] {
            let mut ctx = open_ctx(total, outstanding);
            let before = ctx;
            assert_eq!(
                open_loobox(&config(), &mut ctx, tier, 0, &TimestampModulo),
                Err(LootboxError::InvalidLootbox)
            );
            assert_eq!(ctx, before);
        }
    }
    let mut ctx = open_ctx(u64::MAX, outstanding);
    assert_eq!(
        open_loobox(&config_with_items(vec![]), &mut ctx, 10, 0, &TimestampModulo),
        Err(LootboxError::InvalidLootbox)
    );
}

#[test]
fn a_claimed_box_makes_room_for_the_next() {
    let claimed = LootboxPointer { mint: address(20), claimed: true, is_initialized: true };
    let mut ctx = open_ctx(100, claimed);
    open_loobox(&config(), &mut ctx, 20, 2, &TimestampModulo).unwrap();
    assert_eq!(
        ctx.lootbox_pointer,
        LootboxPointer { mint: address(22), claimed: false, is_initialized: true }
    );
}

#[test]
fn an_empty_catalog_is_a_configuration_error() {
    let mut ctx = open_ctx(100, fresh());
    let before = ctx;
    assert_eq!(
        open_loobox(&config_with_items(vec![]), &mut ctx, 10, 0, &TimestampModulo),
        Err(LootboxError::ConfigurationError)
    );
    assert_eq!(ctx, before);
}

#[test]
fn an_invalid_lootbox_is_reported_before_an_empty_catalog() {
    let mut ctx = open_ctx(100, fresh());
    assert_eq!(
        open_loobox(&config_with_items(vec![]), &mut ctx, 25, 0, &TimestampModulo),
        Err(LootboxError::InvalidLootbox)
    );
    let mut ctx = open_ctx(5, fresh());
    assert_eq!(
        open_loobox(&config_with_items(vec![]), &mut ctx, 10, 0, &TimestampModulo),
        Err(LootboxError::InvalidLootbox)
    );
}

#[test]
fn a_selection_outside_the_catalog_is_a_configuration_error() {
    let mut ctx = open_ctx(100, fresh());
    let before = ctx;
    assert_eq!(
        open_loobox(&config(), &mut ctx, 10, 0, &ChosenPlace { place: 5 }),
        Err(LootboxError::ConfigurationError)
    );
    assert_eq!(ctx, before);
    assert_eq!(
        open_loobox(&config(), &mut ctx, 10, 0, &ChosenPlace { place: usize::MAX }),
        Err(LootboxError::ConfigurationError)
    );
    assert_eq!(
        open_loobox(&config(), &mut ctx, 25, 0, &ChosenPlace { place: 5 }),
        Err(LootboxError::InvalidLootbox)
    );
}

#[test]
fn the_item_is_claimed_exactly_once() {
    let opened = LootboxPointer { mint: address(21), claimed: false, is_initialized: true };
    let mut ctx = RetrieveItem::new(user(), opened).unwrap();
    let first = retrieve_item_from_lootbox(&mut ctx).unwrap();
    assert_eq!(first, vec![CustodyAction::Mint { token: address(21), to: user(), amount: 1 }]);
    assert_eq!(
        ctx.lootbox_pointer,
        LootboxPointer { mint: address(21), claimed: true, is_initialized: true }
    );
    let after_first = ctx;
    assert_eq!(retrieve_item_from_lootbox(&mut ctx), Err(LootboxError::AlreadyClaimed));
    assert_eq!(ctx, after_first);
    assert_eq!(retrieve_item_from_lootbox(&mut ctx), Err(LootboxError::AlreadyClaimed));
    assert_eq!(ctx, after_first);
}

#[test]
fn claims_are_formed_only_for_an_opened_box() {
    let opened = LootboxPointer { mint: address(21), claimed: false, is_initialized: true };
    assert!(RetrieveItem::new(user(), opened).is_some());
    assert!(RetrieveItem::new(user(), LootboxPointer::new(address(21))).is_none());
    let ctx = RetrieveItem { user: user(), lootbox_pointer: LootboxPointer::new(address(21)) };
    assert!(!ctx.check_accounts());
    let ctx = RetrieveItem { user: user(), lootbox_pointer: opened };
    assert!(ctx.check_accounts());
}

#[test]
fn boxes_are_opened_only_against_the_owners_own_record() {
    assert!(OpenLootbox::new(user(), fresh(), earned(10)).is_some());
    assert!(OpenLootbox::new(address(9), fresh(), earned(10)).is_none());
    let ctx = OpenLootbox { user: address(9), lootbox_pointer: fresh(), stake_state: earned(10) };
    assert!(!ctx.check_accounts());
}
