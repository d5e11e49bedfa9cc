//! The lootbox ledger: one pointer per owner, opened against the owner's
//! lifetime earnings and claimed exactly once.

use crate::address::Address;
use crate::catalog::SelectItem;
use crate::config::ProgramConfig;
use crate::custody::{action_models, ActionModel, CustodyAction};
use crate::staking::UserStakeInfo;
use crate::tier::{is_lootbox_tier, is_valid_tier, lootbox_price, LOOTBOX_UNITS_PER_TIER};
use vstd::prelude::*;

verus! {

/// Why a lootbox could not be opened or claimed.
#[derive(Clone, Copy, Debug, PartialEq, Eq, Structural)]
pub enum LootboxError {
    /// The item of this pointer has been claimed already.
    AlreadyClaimed,
    /// The number is no tier, the owner has not earned enough, or an
    /// earlier box is still unclaimed.
    InvalidLootbox,
    /// The catalog is empty, or the chosen place is not in it.
    ConfigurationError,
}

/// The claim an owner holds on the item of the last box opened.
#[derive(Clone, Copy, Debug, PartialEq, Eq)]
pub struct LootboxPointer {
    /// The item chosen when the box was opened.
    pub mint: Address,
    /// Whether the item has been claimed.
    pub claimed: bool,
    /// Whether a box has ever been opened.
    pub is_initialized: bool,
}

impl LootboxPointer {
    /// A box has been opened and its item is still to be claimed.
    pub open spec fn outstanding(self) -> bool {
        self.is_initialized && !self.claimed
    }

    /// The pointer of an owner who has never opened a box, standing at
    /// `mint`.
    pub open spec fn never_opened(mint: Address) -> LootboxPointer {
        LootboxPointer { mint, claimed: false, is_initialized: false }
    }

    /// The pointer written when a box holding `mint` is opened.
    pub open spec fn opened(mint: Address) -> LootboxPointer {
        LootboxPointer { mint, claimed: false, is_initialized: true }
    }

    /// The pointer of an owner who has never opened a box, standing at
    /// `mint`.
    pub fn new(mint: Address) -> (pointer: LootboxPointer)
        ensures
            pointer == LootboxPointer::never_opened(mint),
            !pointer.outstanding(),
    {
        LootboxPointer { mint, claimed: false, is_initialized: false }
    }
}

/// The accounts of a request to open a lootbox.
#[derive(Clone, Copy, Debug, PartialEq, Eq)]
pub struct OpenLootbox {
    /// The owner who opens the box.
    pub user: Address,
    /// The owner's pointer.
    pub lootbox_pointer: LootboxPointer,
    /// The stake record whose lifetime earnings gate the tier.
    pub stake_state: UserStakeInfo,
}

/// The accounts of a request to claim the item of an opened lootbox.
#[derive(Clone, Copy, Debug, PartialEq, Eq)]
pub struct RetrieveItem {
    /// The owner who claims.
    pub user: Address,
    /// The owner's pointer.
    pub lootbox_pointer: LootboxPointer,
}

impl OpenLootbox {
    /// The stake record belongs to the owner of the request.
    pub open spec fn accounts_match(self) -> bool {
        self.stake_state.user_pubkey == self.user
    }

    /// The request is refused as an invalid lootbox: `box_number` is no
    /// tier, the lifetime earnings are below it, or the last box is still
    /// unclaimed.
    pub open spec fn is_invalid(self, box_number: u64) -> bool {
        ||| !is_lootbox_tier(box_number as nat)
        ||| self.stake_state.total_earned < box_number
        ||| self.lootbox_pointer.outstanding()
    }

    /// Why opening a box of `box_number` at `now` is refused, if it is. An
    /// invalid lootbox is reported before a fault of the configuration.
    pub open spec fn open_error<S: SelectItem>(
        self,
        config: ProgramConfig,
        box_number: u64,
        now: i64,
        selector: S,
    ) -> Option<LootboxError> {
        let size = config.item_catalog@.len();
        if self.is_invalid(box_number) {
            Some(LootboxError::InvalidLootbox)
        } else if size == 0 || selector.selection(now, size) >= size {
            Some(LootboxError::ConfigurationError)
        } else {
            None
        }
    }

    /// These accounts after a box has been opened at `now`: the pointer
    /// names the chosen item and is unclaimed.
    pub open spec fn opened<S: SelectItem>(self, config: ProgramConfig, now: i64, selector: S) -> OpenLootbox {
        let catalog = config.item_catalog@;
        OpenLootbox {
            lootbox_pointer: LootboxPointer::opened(
                catalog[selector.selection(now, catalog.len()) as int],
            ),
            ..self
        }
    }

    /// What the custody layer is asked to do for opening a box of
    /// `box_number`: burn its price from the owner's reward tokens.
    pub open spec fn actions(self, config: ProgramConfig, box_number: u64) -> Seq<ActionModel> {
        seq![
            ActionModel::Burn {
                token: config.reward_mint,
                from: self.user,
                amount: lootbox_price(box_number as nat) as u128,
            },
        ]
    }

    /// Whether the stake record belongs to the owner of the request.
    pub fn check_accounts(&self) -> (ok: bool)
        ensures
            ok == self.accounts_match(),
    {
        self.stake_state.user_pubkey == self.user
    }

    /// The request of `user` to open a box, or nothing when the stake
    /// record belongs to another owner.
    pub fn new(user: Address, lootbox_pointer: LootboxPointer, stake_state: UserStakeInfo) -> (ctx:
        Option<OpenLootbox>)
        ensures
            ctx == if (OpenLootbox { user, lootbox_pointer, stake_state }).accounts_match() {
                Some(OpenLootbox { user, lootbox_pointer, stake_state })
            } else {
                None
            },
    {
        let ctx = OpenLootbox { user, lootbox_pointer, stake_state };
        if ctx.check_accounts() {
            Some(ctx)
        } else {
            None
        }
    }
}

impl RetrieveItem {
    /// A box has been opened.
    pub open spec fn accounts_match(self) -> bool {
        self.lootbox_pointer.is_initialized
    }

    /// Why a claim is refused, if it is: the item has been claimed already.
    pub open spec fn retrieve_error(self) -> Option<LootboxError> {
        if self.lootbox_pointer.claimed {
            Some(LootboxError::AlreadyClaimed)
        } else {
            None
        }
    }

    /// These accounts after the item has been claimed.
    pub open spec fn retrieved(self) -> RetrieveItem {
        RetrieveItem {
            lootbox_pointer: LootboxPointer { claimed: true, ..self.lootbox_pointer },
            ..self
        }
    }

    /// What the custody layer is asked to do for a claim: mint one unit of
    /// the item that the box holds to the owner.
    pub open spec fn actions(self) -> Seq<ActionModel> {
        seq![ActionModel::Mint { token: self.lootbox_pointer.mint, to: self.user, amount: 1 }]
    }

    /// Whether a box has been opened.
    pub fn check_accounts(&self) -> (ok: bool)
        ensures
            ok == self.accounts_match(),
    {
        self.lootbox_pointer.is_initialized
    }

    /// The request of `user` to claim the item of `lootbox_pointer`, or
    /// nothing when no box has been opened.
    pub fn new(user: Address, lootbox_pointer: LootboxPointer) -> (ctx: Option<RetrieveItem>)
        ensures
            ctx == if (RetrieveItem { user, lootbox_pointer }).accounts_match() {
                Some(RetrieveItem { user, lootbox_pointer })
            } else {
                None
            },
    {
        let ctx = RetrieveItem { user, lootbox_pointer };
        if ctx.check_accounts() {
            Some(ctx)
        } else {
            None
        }
    }
}

/// Opens a lootbox of tier `box_number` for the owner of `ctx` at `now`.
///
/// The stake record must be the owner's own, as it is in every request that
/// [`OpenLootbox::new`] forms.
///
/// Succeeds exactly when [`OpenLootbox::open_error`] finds nothing wrong:
/// the number is a tier, the lifetime earnings reach it, no earlier box is
/// unclaimed, and `selector` chooses a place in a catalog that is not empty.
/// The pointer then names the chosen item and is unclaimed, and the host
/// must burn the price of the box. On failure nothing changes.
pub fn open_loobox<S: SelectItem>(
    config: &ProgramConfig,
    ctx: &mut OpenLootbox,
    box_number: u64,
    now: i64,
    selector: &S,
) -> (result: Result<Vec<CustodyAction>, LootboxError>)
    requires
        old(ctx).accounts_match(),
    ensures
        final(ctx).accounts_match(),
        match result {
            Ok(actions) => {
                &&& old(ctx).open_error(*config, box_number, now, *selector) is None
                &&& *final(ctx) == old(ctx).opened(*config, now, *selector)
                &&& action_models(actions@) == old(ctx).actions(*config, box_number)
            },
            Err(e) => {
                &&& old(ctx).open_error(*config, box_number, now, *selector) == Some(e)
                &&& *final(ctx) == *old(ctx)
            },
        },
{
    if !is_valid_tier(box_number) || ctx.stake_state.total_earned < box_number {
        return Err(LootboxError::InvalidLootbox);
    }
    if ctx.lootbox_pointer.is_initialized && !ctx.lootbox_pointer.claimed {
        return Err(LootboxError::InvalidLootbox);
    }
    let size = config.item_catalog.len();
    if size == 0 {
        return Err(LootboxError::ConfigurationError);
    }
    let index = selector.select(now, size);
    let item = match config.item_catalog.get(index) {
        Some(item) => item,
        None => {
            return Err(LootboxError::ConfigurationError);
        },
    };
    let burn = CustodyAction::Burn {
        token: config.reward_mint,
        from: ctx.user,
        amount: box_number as u128 * LOOTBOX_UNITS_PER_TIER,
    };
    let actions = vec![burn];
    ctx.lootbox_pointer = LootboxPointer { mint: item, claimed: false, is_initialized: true };
    assert(action_models(actions@) =~= old(ctx).actions(*config, box_number));
    Ok(actions)
}

/// Claims the item of the box that the owner of `ctx` has opened.
///
/// A box must have been opened, as in every request that
/// [`RetrieveItem::new`] forms.
///
/// Succeeds exactly when the item has not been claimed yet. The pointer is
/// then claimed, and the host must mint one unit of the item that the box
/// holds to the owner.
/// A pointer that is claimed already is refused with `AlreadyClaimed` and
/// nothing changes.
pub fn retrieve_item_from_lootbox(ctx: &mut RetrieveItem) -> (result: Result<
    Vec<CustodyAction>,
    LootboxError,
>)
    requires
        old(ctx).accounts_match(),
    ensures
        final(ctx).accounts_match(),
        match result {
            Ok(actions) => {
                &&& old(ctx).retrieve_error() is None
                &&& *final(ctx) == old(ctx).retrieved()
                &&& action_models(actions@) == old(ctx).actions()
            },
            Err(e) => {
                &&& old(ctx).retrieve_error() == Some(e)
                &&& *final(ctx) == *old(ctx)
            },
        },
{
    if ctx.lootbox_pointer.claimed {
        return Err(LootboxError::AlreadyClaimed);
    }
    let actions = vec![
        CustodyAction::Mint { token: ctx.lootbox_pointer.mint, to: ctx.user, amount: 1 },
    ];
    ctx.lootbox_pointer.claimed = true;
    assert(action_models(actions@) =~= old(ctx).actions());
    Ok(actions)
}

} // verus!
