//! What holds of the ledger whatever the requests and whatever their order.

use crate::catalog::{SelectItem, TimestampModulo};
use crate::config::ProgramConfig;
use crate::custody::ActionModel;
use crate::lootbox::{LootboxError, OpenLootbox, RetrieveItem};
use crate::reward::{
    lemma_reward_is_not_negative, lemma_reward_of_no_time, reward, SECONDS_PER_DAY,
};
use crate::staking::{Redeem, Stake, StakeRequest, StakeState, Unstake, UserStakeInfo};
use crate::tier::{is_lootbox_tier, lemma_tiers_double, lootbox_tier};
use vstd::prelude::*;

verus! {

/// A longer time earns at least as much.
pub proof fn law_reward_grows_with_time(units_per_day: int, shorter: int, longer: int)
    requires
        units_per_day > 0,
        shorter <= longer,
    ensures
        reward(units_per_day, shorter) <= reward(units_per_day, longer),
{
    assert(shorter * units_per_day <= longer * units_per_day) by (nonlinear_arith)
        requires
            units_per_day > 0,
            shorter <= longer,
    ;
}

/// One full day earns exactly the daily emission.
pub proof fn law_one_day_earns_the_daily_emission(units_per_day: int)
    ensures
        reward(units_per_day, SECONDS_PER_DAY as int) == units_per_day,
{
    assert((86_400 * units_per_day) / 86_400 == units_per_day) by (nonlinear_arith);
}

/// With the remainder of the time as selector, the configuration is at
/// fault only when the catalog is empty: on any other catalog the remainder
/// is a place in it.
pub proof fn law_timestamp_modulo_needs_only_a_catalog(
    config: ProgramConfig,
    ctx: OpenLootbox,
    box_number: u64,
    now: i64,
)
    ensures
        TimestampModulo.selection(now, config.item_catalog@.len()) < config.item_catalog@.len()
            || config.item_catalog@.len() == 0,
        ctx.open_error(config, box_number, now, TimestampModulo) == Some(
            LootboxError::ConfigurationError,
        ) <==> !ctx.is_invalid(box_number) && config.item_catalog@.len() == 0,
{
}

/// A redeem that goes through adds exactly the reward for the time since
/// the last settlement to the lifetime total, asks for exactly that amount
/// to be minted, and moves the settlement clock to `now`.
pub proof fn law_redeem_adds_the_pending_reward(config: ProgramConfig, ctx: Redeem, now: i64)
    requires
        ctx.stake_state.settlement_error(config.reward_units_per_day, now) is None,
    ensures
        ctx.redeemed(config, now).stake_state.total_earned == ctx.stake_state.total_earned + reward(
            config.reward_units_per_day as int,
            now - ctx.stake_state.last_stake_redeem,
        ),
        ctx.redeemed(config, now).stake_state.last_stake_redeem == now,
        ctx.actions(config, now) == seq![
            ActionModel::Mint {
                token: config.reward_mint,
                to: ctx.user,
                amount: reward(
                    config.reward_units_per_day as int,
                    now - ctx.stake_state.last_stake_redeem,
                ) as u128,
            },
        ],
        reward(config.reward_units_per_day as int, now - ctx.stake_state.last_stake_redeem) >= 0,
{
    lemma_reward_is_not_negative(
        config.reward_units_per_day as int,
        now - ctx.stake_state.last_stake_redeem,
    );
}

/// No request, granted or refused, lowers the lifetime total or moves the
/// settlement clock of a staked asset backwards.
pub proof fn law_request_never_lowers_lifetime_earnings(
    record: UserStakeInfo,
    units_per_day: i64,
    request: StakeRequest,
    now: i64,
)
    ensures
        record.after(units_per_day, request, now).total_earned >= record.total_earned,
        !(request is Stake) ==> record.after(units_per_day, request, now).last_stake_redeem
            >= record.last_stake_redeem,
{
    if record.settlement_error(units_per_day, now) is None {
        lemma_reward_is_not_negative(units_per_day as int, now - record.last_stake_redeem);
    }
}

/// Over any sequence of requests, across any number of stake and unstake
/// cycles, the lifetime total never decreases.
pub proof fn law_lifetime_earnings_never_decrease(
    record: UserStakeInfo,
    units_per_day: i64,
    history: Seq<(StakeRequest, i64)>,
)
    ensures
        record.after_all(units_per_day, history).total_earned >= record.total_earned,
    decreases history.len(),
{
    if history.len() > 0 {
        law_lifetime_earnings_never_decrease(record, units_per_day, history.drop_last());
        law_request_never_lowers_lifetime_earnings(
            record.after_all(units_per_day, history.drop_last()),
            units_per_day,
            history.last().0,
            history.last().1,
        );
    }
}

/// A well-formed record stays well formed over any sequence of requests: a
/// staked record is initialized, and its last settlement is never older
/// than its stake.
pub proof fn law_records_stay_well_formed(
    record: UserStakeInfo,
    units_per_day: i64,
    history: Seq<(StakeRequest, i64)>,
)
    requires
        record.wf(),
    ensures
        record.after_all(units_per_day, history).wf(),
    decreases history.len(),
{
    if history.len() > 0 {
        law_records_stay_well_formed(record, units_per_day, history.drop_last());
    }
}

/// A record keeps its owner: no request made in the name of the owner and
/// the asset that the record belongs to hands it to anyone else, and once
/// the record is initialized it stays so.
pub proof fn law_record_keeps_its_owner(
    record: UserStakeInfo,
    units_per_day: i64,
    request: StakeRequest,
    now: i64,
    user: crate::address::Address,
    token_account: crate::address::Address,
)
    requires
        record.belongs_to(user, token_account),
        request matches StakeRequest::Stake { user: staker, token_account: staked } ==> staker == user
            && staked == token_account,
    ensures
        record.after(units_per_day, request, now).belongs_to(user, token_account),
        record.is_initialized ==> record.after(units_per_day, request, now).is_initialized,
        record.is_initialized ==> record.after(units_per_day, request, now).user_pubkey
            == record.user_pubkey && record.after(units_per_day, request, now).token_account
            == record.token_account,
{
}

/// A second redeem at the instant of the first goes through, asks for
/// nothing to be minted and leaves the record as the first left it.
pub proof fn law_redeem_twice_at_one_instant(config: ProgramConfig, ctx: Redeem, now: i64)
    requires
        ctx.stake_state.settlement_error(config.reward_units_per_day, now) is None,
    ensures
        ctx.redeemed(config, now).stake_state.settlement_error(config.reward_units_per_day, now)
            is None,
        ctx.redeemed(config, now).actions(config, now) == seq![
            ActionModel::Mint { token: config.reward_mint, to: ctx.user, amount: 0 },
        ],
        ctx.redeemed(config, now).redeemed(config, now) == ctx.redeemed(config, now),
{
    lemma_reward_of_no_time(config.reward_units_per_day as int);
}

/// An unstake is refused exactly when a redeem at the same instant is, and
/// for the same reason. Where it goes through, it settles the record as that
/// redeem would and then leaves it unstaked, and it asks for one mint: the
/// mint of that redeem, after the thaw and the revocation.
pub proof fn law_unstake_settles_as_redeem_does(config: ProgramConfig, ctx: Unstake, now: i64)
    ensures
        ctx.stake_state.settlement_error(config.reward_units_per_day, now)
            == ctx.as_redeem().stake_state.settlement_error(config.reward_units_per_day, now),
        ctx.unstaked(config, now).stake_state == ctx.as_redeem().redeemed(
            config,
            now,
        ).stake_state.released(),
        ctx.unstaked(config, now).stake_state.stake_state == StakeState::Unstaked,
        ctx.actions(config, now).len() == 3,
        ctx.actions(config, now)[0] is Thaw,
        ctx.actions(config, now)[1] is Revoke,
        ctx.actions(config, now)[2] == ctx.as_redeem().actions(config, now)[0],
        ctx.as_redeem().actions(config, now).len() == 1,
{
}

/// The tiers start at ten and each is twice the one before: 10, 20, 40,
/// 80, 160, ... A number between two of them, such as 25, is no tier.
pub proof fn law_tiers_are_the_doubling_sequence()
    ensures
        lootbox_tier(0) == 10,
        forall|k: nat| #[trigger] lootbox_tier(k + 1) == 2 * lootbox_tier(k),
        forall|k: nat| is_lootbox_tier(#[trigger] lootbox_tier(k)),
        is_lootbox_tier(10),
        is_lootbox_tier(20),
        is_lootbox_tier(40),
        is_lootbox_tier(80),
        is_lootbox_tier(160),
        !is_lootbox_tier(25),
{
    lemma_tiers_double(0);
    lemma_tiers_double(1);
    lemma_tiers_double(2);
    lemma_tiers_double(3);
    assert forall|k: nat| #[trigger] lootbox_tier(k + 1) == 2 * lootbox_tier(k) by {
        lemma_tiers_double(k);
    }
    assert(lootbox_tier(1) == 20);
    assert(lootbox_tier(2) == 40);
    assert(lootbox_tier(3) == 80);
    assert(lootbox_tier(4) == 160);
}

/// A number that is not in the doubling sequence is refused as an invalid
/// lootbox, however much has been earned.
pub proof fn law_off_sequence_tier_is_rejected<S: SelectItem>(
    config: ProgramConfig,
    ctx: OpenLootbox,
    box_number: u64,
    now: i64,
    selector: S,
)
    requires
        !is_lootbox_tier(box_number as nat),
    ensures
        ctx.open_error(config, box_number, now, selector) == Some(LootboxError::InvalidLootbox),
{
}

/// With no box outstanding and a catalog from which the selector chooses,
/// a number is accepted exactly when it is in the doubling sequence and the
/// lifetime earnings reach it; otherwise it is refused as an invalid
/// lootbox.
pub proof fn law_tier_is_accepted_iff_on_sequence_and_earned<S: SelectItem>(
    config: ProgramConfig,
    ctx: OpenLootbox,
    box_number: u64,
    now: i64,
    selector: S,
)
    requires
        !ctx.lootbox_pointer.outstanding(),
        config.item_catalog@.len() > 0,
        selector.selection(now, config.item_catalog@.len()) < config.item_catalog@.len(),
    ensures
        ctx.open_error(config, box_number, now, selector) is None <==> is_lootbox_tier(
            box_number as nat,
        ) && ctx.stake_state.total_earned >= box_number,
        ctx.open_error(config, box_number, now, selector) is Some ==> ctx.open_error(
            config,
            box_number,
            now,
            selector,
        ) == Some(LootboxError::InvalidLootbox),
{
}

/// While a box is opened and unclaimed, every attempt to open another is
/// refused as an invalid lootbox, whatever the tier, the earnings and the
/// configuration.
pub proof fn law_outstanding_box_blocks_opening<S: SelectItem>(
    config: ProgramConfig,
    ctx: OpenLootbox,
    box_number: u64,
    now: i64,
    selector: S,
)
    requires
        ctx.lootbox_pointer.outstanding(),
    ensures
        ctx.open_error(config, box_number, now, selector) == Some(LootboxError::InvalidLootbox),
{
}

/// Opening a box leaves exactly one claim outstanding: it goes through only
/// when none is, and the pointer it writes is one, on an item of the
/// catalog.
pub proof fn law_opening_leaves_one_claim<S: SelectItem>(
    config: ProgramConfig,
    ctx: OpenLootbox,
    box_number: u64,
    now: i64,
    selector: S,
)
    requires
        ctx.open_error(config, box_number, now, selector) is None,
    ensures
        !ctx.lootbox_pointer.outstanding(),
        ctx.opened(config, now, selector).lootbox_pointer.outstanding(),
        config.item_catalog@.contains(ctx.opened(config, now, selector).lootbox_pointer.mint),
        (RetrieveItem {
            user: ctx.user,
            lootbox_pointer: ctx.opened(config, now, selector).lootbox_pointer,
        }).accounts_match(),
{
}

/// The item of an opened box is claimed exactly once: the first claim goes
/// through and asks for one unit of the item to be minted; on the pointer it
/// leaves, every further claim is refused as already claimed, and no new box
/// is outstanding.
pub proof fn law_item_is_claimed_exactly_once(ctx: RetrieveItem)
    requires
        ctx.accounts_match(),
        !ctx.lootbox_pointer.claimed,
    ensures
        ctx.retrieve_error() is None,
        ctx.actions() == seq![
            ActionModel::Mint { token: ctx.lootbox_pointer.mint, to: ctx.user, amount: 1 },
        ],
        ctx.retrieved().accounts_match(),
        ctx.retrieved().retrieve_error() == Some(LootboxError::AlreadyClaimed),
        !ctx.retrieved().lootbox_pointer.outstanding(),
{
}

/// What the custody layer holds of one asset.
pub struct AssetCustody {
    /// The custody authority is the owner's delegate over the asset.
    pub delegated: bool,
    /// The asset cannot be moved.
    pub frozen: bool,
}

impl AssetCustody {
    /// Custody as a record in `state` expects it: a staked asset is
    /// delegated and frozen, an unstaked one is neither.
    pub open spec fn of(state: StakeState) -> AssetCustody {
        AssetCustody { delegated: state == StakeState::Staked, frozen: state == StakeState::Staked }
    }

    /// Whether the custody layer carries out `action` in this state. A
    /// frozen asset takes no new delegation and loses none; only a delegate
    /// freezes and thaws, and never into the state the asset is in.
    pub open spec fn accepts(self, action: ActionModel) -> bool {
        match action {
            ActionModel::Delegate { .. } => !self.frozen,
            ActionModel::Freeze { .. } => self.delegated && !self.frozen,
            ActionModel::Thaw { .. } => self.delegated && self.frozen,
            ActionModel::Revoke { .. } => self.delegated && !self.frozen,
            ActionModel::Mint { .. } => true,
            ActionModel::Burn { .. } => true,
        }
    }

    /// Custody after `action` has been carried out.
    pub open spec fn after(self, action: ActionModel) -> AssetCustody {
        match action {
            ActionModel::Delegate { .. } => AssetCustody { delegated: true, ..self },
            ActionModel::Freeze { .. } => AssetCustody { frozen: true, ..self },
            ActionModel::Thaw { .. } => AssetCustody { frozen: false, ..self },
            ActionModel::Revoke { .. } => AssetCustody { delegated: false, ..self },
            ActionModel::Mint { .. } => self,
            ActionModel::Burn { .. } => self,
        }
    }

    /// Custody after `actions` have been carried out in order, or nothing
    /// if the custody layer turns one of them down.
    pub open spec fn after_all(self, actions: Seq<ActionModel>) -> Option<AssetCustody>
        decreases actions.len(),
    {
        if actions.len() == 0 {
            Some(self)
        } else {
            match self.after_all(actions.drop_last()) {
                Some(before) => if before.accepts(actions.last()) {
                    Some(before.after(actions.last()))
                } else {
                    None
                },
                None => None,
            }
        }
    }
}

/// Where custody agrees with the record before a stake, the custody layer
/// carries out every action of the stake, and custody agrees with the record
/// after it: the asset is delegated and frozen.
pub proof fn law_stake_keeps_custody_in_step(config: ProgramConfig, ctx: Stake, now: i64)
    requires
        ctx.stake_state.stake_error() is None,
    ensures
        AssetCustody::of(ctx.stake_state.stake_state).after_all(ctx.actions(config)) == Some(
            AssetCustody::of(ctx.staked(now).stake_state.stake_state),
        ),
        AssetCustody::of(ctx.staked(now).stake_state.stake_state) == (AssetCustody {
            delegated: true,
            frozen: true,
        }),
{
    let start = AssetCustody::of(ctx.stake_state.stake_state);
    let actions = ctx.actions(config);
    reveal_with_fuel(AssetCustody::after_all, 3);
    assert(actions.drop_last() =~= seq![actions[0]]);
    assert(actions.drop_last().drop_last() =~= Seq::<ActionModel>::empty());
}

/// A redeem asks nothing of the custody layer that could be turned down for
/// the state of the asset, and leaves custody as it was.
pub proof fn law_redeem_keeps_custody_in_step(config: ProgramConfig, ctx: Redeem, now: i64)
    requires
        ctx.stake_state.settlement_error(config.reward_units_per_day, now) is None,
    ensures
        AssetCustody::of(ctx.stake_state.stake_state).after_all(ctx.actions(config, now)) == Some(
            AssetCustody::of(ctx.redeemed(config, now).stake_state.stake_state),
        ),
{
    let actions = ctx.actions(config, now);
    reveal_with_fuel(AssetCustody::after_all, 2);
    assert(actions.drop_last() =~= Seq::<ActionModel>::empty());
}

/// Where custody agrees with the record before an unstake, the custody
/// layer carries out every action of the unstake, and custody agrees with
/// the record after it: the asset is neither frozen nor delegated.
pub proof fn law_unstake_keeps_custody_in_step(config: ProgramConfig, ctx: Unstake, now: i64)
    requires
        ctx.stake_state.settlement_error(config.reward_units_per_day, now) is None,
    ensures
        AssetCustody::of(ctx.stake_state.stake_state).after_all(ctx.actions(config, now)) == Some(
            AssetCustody::of(ctx.unstaked(config, now).stake_state.stake_state),
        ),
        AssetCustody::of(ctx.unstaked(config, now).stake_state.stake_state) == (AssetCustody {
            delegated: false,
            frozen: false,
        }),
{
    let actions = ctx.actions(config, now);
    reveal_with_fuel(AssetCustody::after_all, 4);
    assert(actions.drop_last() =~= seq![actions[0], actions[1]]);
    assert(actions.drop_last().drop_last() =~= seq![actions[0]]);
    assert(actions.drop_last().drop_last().drop_last() =~= Seq::<ActionModel>::empty());
}

} // verus!
