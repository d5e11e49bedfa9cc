//! The stake ledger: one record per owner and asset, and the three
//! operations that move it between `Unstaked` and `Staked`.

use crate::address::Address;
use crate::config::ProgramConfig;
use crate::custody::{
    action_models, freeze_delegated_account, freeze_instruction, thaw_delegated_account,
    thaw_instruction, ActionModel, CustodyAction,
};
use crate::reward::{accrued_reward, reward};
use vstd::prelude::*;

verus! {

/// Whether an asset is currently staked.
#[derive(Clone, Copy, Debug, PartialEq, Eq, Structural)]
pub enum StakeState {
    Unstaked,
    Staked,
}

impl Default for StakeState {
    /// An asset starts out unstaked.
    fn default() -> (state: StakeState)
        ensures
            state == StakeState::Unstaked,
    {
        StakeState::Unstaked
    }
}

/// Why a stake, redeem or unstake was refused.
#[derive(Clone, Copy, Debug, PartialEq, Eq, Structural)]
pub enum StakeError {
    /// The asset is already staked.
    AlreadyStaked,
    /// The record has never been staked.
    UninitializedAccount,
    /// The record is not currently staked.
    InvalidStakeState,
    /// The reward rate is not positive, or the clock has run backwards.
    ConfigurationError,
    /// The reward does not fit into the lifetime total.
    RewardOverflow,
}

/// One of the three requests that move a record.
pub enum StakeRequest {
    /// `user` stakes the asset held in `token_account`.
    Stake { user: Address, token_account: Address },
    /// The owner collects the pending reward.
    Redeem,
    /// The owner collects the pending reward and takes the asset back.
    Unstake,
}

/// The ledger record of one owner and one asset.
#[derive(Clone, Copy, Debug, PartialEq, Eq)]
pub struct UserStakeInfo {
    /// The token account that holds the asset.
    pub token_account: Address,
    /// When the asset was last staked.
    pub stake_start_time: i64,
    /// When rewards were last settled.
    pub last_stake_redeem: i64,
    /// All rewards ever minted to this record.
    pub total_earned: u64,
    /// The owner of the asset.
    pub user_pubkey: Address,
    /// Whether the asset is staked now.
    pub stake_state: StakeState,
    /// Whether the asset has ever been staked.
    pub is_initialized: bool,
}

impl UserStakeInfo {
    /// A staked record has been initialized, and its last settlement is not
    /// older than its stake.
    pub open spec fn wf(self) -> bool {
        self.stake_state == StakeState::Staked ==> self.is_initialized && self.stake_start_time
            <= self.last_stake_redeem
    }

    /// Once it has been staked, a record belongs to the owner and the asset
    /// that it names; until then it is open to whoever stakes first.
    pub open spec fn belongs_to(self, user: Address, token_account: Address) -> bool {
        self.is_initialized ==> self.user_pubkey == user && self.token_account == token_account
    }

    /// The record of an asset that `user_pubkey` has never staked.
    pub open spec fn never_staked(user_pubkey: Address, token_account: Address) -> UserStakeInfo {
        UserStakeInfo {
            token_account,
            stake_start_time: 0,
            last_stake_redeem: 0,
            total_earned: 0,
            user_pubkey,
            stake_state: StakeState::Unstaked,
            is_initialized: false,
        }
    }

    /// This record after `user_pubkey` has staked `token_account` at `now`:
    /// both clocks start at `now`, and the lifetime total is kept.
    pub open spec fn staked(self, user_pubkey: Address, token_account: Address, now: i64) -> UserStakeInfo {
        UserStakeInfo {
            token_account,
            stake_start_time: now,
            last_stake_redeem: now,
            total_earned: self.total_earned,
            user_pubkey,
            stake_state: StakeState::Staked,
            is_initialized: true,
        }
    }

    /// Why a stake is refused, if it is: the asset is staked already.
    pub open spec fn stake_error(self) -> Option<StakeError> {
        if self.stake_state == StakeState::Staked {
            Some(StakeError::AlreadyStaked)
        } else {
            None
        }
    }

    /// What a settlement at `now` would pay: the reward for the time since
    /// the last settlement.
    pub open spec fn pending_reward(self, units_per_day: i64, now: i64) -> int {
        reward(units_per_day as int, now - self.last_stake_redeem)
    }

    /// Why a settlement at `now` is refused, if it is. The first failing
    /// condition decides.
    pub open spec fn settlement_error(self, units_per_day: i64, now: i64) -> Option<StakeError> {
        if !self.is_initialized {
            Some(StakeError::UninitializedAccount)
        } else if self.stake_state != StakeState::Staked {
            Some(StakeError::InvalidStakeState)
        } else if units_per_day <= 0 || now < self.last_stake_redeem {
            Some(StakeError::ConfigurationError)
        } else if self.total_earned + self.pending_reward(units_per_day, now) > u64::MAX {
            Some(StakeError::RewardOverflow)
        } else {
            None
        }
    }

    /// This record after a settlement at `now`: the pending reward has been
    /// added to the lifetime total, and the settlement clock stands at `now`.
    pub open spec fn settled(self, units_per_day: i64, now: i64) -> UserStakeInfo {
        UserStakeInfo {
            last_stake_redeem: now,
            total_earned: (self.total_earned + self.pending_reward(units_per_day, now)) as u64,
            ..self
        }
    }

    /// This record after it has left the staked state.
    pub open spec fn released(self) -> UserStakeInfo {
        UserStakeInfo { stake_state: StakeState::Unstaked, ..self }
    }

    /// This record after `request` has been handled at `now`: moved on where
    /// the request is granted, untouched where it is refused.
    pub open spec fn after(self, units_per_day: i64, request: StakeRequest, now: i64) -> UserStakeInfo {
        match request {
            StakeRequest::Stake { user, token_account } => if self.stake_error() is None {
                self.staked(user, token_account, now)
            } else {
                self
            },
            StakeRequest::Redeem => if self.settlement_error(units_per_day, now) is None {
                self.settled(units_per_day, now)
            } else {
                self
            },
            StakeRequest::Unstake => if self.settlement_error(units_per_day, now) is None {
                self.settled(units_per_day, now).released()
            } else {
                self
            },
        }
    }

    /// This record after every request of `history` has been handled, first
    /// to last, each at its own time.
    pub open spec fn after_all(self, units_per_day: i64, history: Seq<(StakeRequest, i64)>) -> UserStakeInfo
        decreases history.len(),
    {
        if history.len() == 0 {
            self
        } else {
            self.after_all(units_per_day, history.drop_last()).after(
                units_per_day,
                history.last().0,
                history.last().1,
            )
        }
    }

    /// The record of an asset that `user_pubkey` has never staked.
    pub fn new(user_pubkey: Address, token_account: Address) -> (record: UserStakeInfo)
        ensures
            record == UserStakeInfo::never_staked(user_pubkey, token_account),
            record.wf(),
    {
        UserStakeInfo {
            token_account,
            stake_start_time: 0,
            last_stake_redeem: 0,
            total_earned: 0,
            user_pubkey,
            stake_state: StakeState::Unstaked,
            is_initialized: false,
        }
    }

    /// Whether this record belongs to `user` and `token_account`.
    pub fn is_record_of(&self, user: &Address, token_account: &Address) -> (ok: bool)
        ensures
            ok == self.belongs_to(*user, *token_account),
    {
        !self.is_initialized || (self.user_pubkey == *user && self.token_account == *token_account)
    }

    /// Settles the rewards accrued up to `now` and returns the amount to
    /// mint.
    ///
    /// Succeeds exactly when [`Self::settlement_error`] finds nothing wrong;
    /// the record then becomes [`Self::settled`]. On failure the record is
    /// left as it was.
    pub fn settle(&mut self, units_per_day: i64, now: i64) -> (result: Result<u64, StakeError>)
        ensures
            match result {
                Ok(amount) => {
                    &&& old(self).settlement_error(units_per_day, now) is None
                    &&& amount == old(self).pending_reward(units_per_day, now)
                    &&& *final(self) == old(self).settled(units_per_day, now)
                },
                Err(e) => {
                    &&& old(self).settlement_error(units_per_day, now) == Some(e)
                    &&& *final(self) == *old(self)
                },
            },
    {
        if !self.is_initialized {
            return Err(StakeError::UninitializedAccount);
        }
        if self.stake_state != StakeState::Staked {
            return Err(StakeError::InvalidStakeState);
        }
        let pending = match accrued_reward(units_per_day, self.last_stake_redeem, now) {
            Some(pending) => pending,
            None => {
                return Err(StakeError::ConfigurationError);
            },
        };
        if pending > (u64::MAX - self.total_earned) as u128 {
            return Err(StakeError::RewardOverflow);
        }
        let amount: u64 = pending as u64;
        self.last_stake_redeem = now;
        self.total_earned = self.total_earned + amount;
        Ok(amount)
    }
}

/// The accounts of a stake request.
#[derive(Clone, Copy, Debug, PartialEq, Eq)]
pub struct Stake {
    /// The owner who stakes.
    pub user: Address,
    /// The token account that holds the asset.
    pub nft_token_account: Address,
    /// The mint of the asset.
    pub nft_mint: Address,
    /// The edition account of the asset.
    pub nft_edition: Address,
    /// The ledger record of this owner and asset.
    pub stake_state: UserStakeInfo,
}

/// The accounts of a redeem request.
#[derive(Clone, Copy, Debug, PartialEq, Eq)]
pub struct Redeem {
    /// The owner who redeems.
    pub user: Address,
    /// The token account that holds the asset.
    pub nft_token_account: Address,
    /// The ledger record of this owner and asset.
    pub stake_state: UserStakeInfo,
}

/// The accounts of an unstake request.
#[derive(Clone, Copy, Debug, PartialEq, Eq)]
pub struct Unstake {
    /// The owner who unstakes.
    pub user: Address,
    /// The token account that holds the asset.
    pub nft_token_account: Address,
    /// The mint of the asset.
    pub nft_mint: Address,
    /// The edition account of the asset.
    pub nft_edition: Address,
    /// The ledger record of this owner and asset.
    pub stake_state: UserStakeInfo,
}

impl Stake {
    /// The record belongs to the owner and the asset of the request.
    pub open spec fn accounts_match(self) -> bool {
        self.stake_state.belongs_to(self.user, self.nft_token_account)
    }

    /// Whether the record belongs to the owner and the asset of the request.
    pub fn check_accounts(&self) -> (ok: bool)
        ensures
            ok == self.accounts_match(),
    {
        self.stake_state.is_record_of(&self.user, &self.nft_token_account)
    }

    /// The request of `user` to stake the asset in `nft_token_account`, or
    /// nothing when the record belongs to another owner or asset.
    pub fn new(
        user: Address,
        nft_token_account: Address,
        nft_mint: Address,
        nft_edition: Address,
        stake_state: UserStakeInfo,
    ) -> (ctx: Option<Stake>)
        ensures
            ctx == if (Stake {
                user,
                nft_token_account,
                nft_mint,
                nft_edition,
                stake_state,
            }).accounts_match() {
                Some(Stake { user, nft_token_account, nft_mint, nft_edition, stake_state })
            } else {
                None
            },
    {
        let ctx = Stake { user, nft_token_account, nft_mint, nft_edition, stake_state };
        if ctx.check_accounts() {
            Some(ctx)
        } else {
            None
        }
    }

    /// What the custody layer is asked to do for a stake: make the custody
    /// authority the delegate over the one unit in the token account, then
    /// freeze the token account.
    pub open spec fn actions(self, config: ProgramConfig) -> Seq<ActionModel> {
        seq![
            ActionModel::Delegate {
                asset: self.nft_token_account,
                owner: self.user,
                custodian: config.custody_authority,
                amount: 1,
            },
            ActionModel::Freeze {
                asset: self.nft_token_account,
                instruction: freeze_instruction(
                    config.metadata_program,
                    config.custody_authority,
                    self.nft_token_account,
                    self.nft_edition,
                    self.nft_mint,
                ),
            },
        ]
    }

    /// These accounts after the stake at `now` has gone through.
    pub open spec fn staked(self, now: i64) -> Stake {
        Stake {
            stake_state: self.stake_state.staked(self.user, self.nft_token_account, now),
            ..self
        }
    }
}

impl Redeem {
    /// The record belongs to the owner and the asset of the request.
    pub open spec fn accounts_match(self) -> bool {
        self.stake_state.belongs_to(self.user, self.nft_token_account)
    }

    /// What the custody layer is asked to do for a redeem at `now`: mint the
    /// pending reward to the owner.
    pub open spec fn actions(self, config: ProgramConfig, now: i64) -> Seq<ActionModel> {
        seq![
            ActionModel::Mint {
                token: config.reward_mint,
                to: self.user,
                amount: self.stake_state.pending_reward(config.reward_units_per_day, now) as u128,
            },
        ]
    }

    /// These accounts after the redeem at `now` has gone through.
    pub open spec fn redeemed(self, config: ProgramConfig, now: i64) -> Redeem {
        Redeem { stake_state: self.stake_state.settled(config.reward_units_per_day, now), ..self }
    }

    /// Whether the record belongs to the owner and the asset of the request.
    pub fn check_accounts(&self) -> (ok: bool)
        ensures
            ok == self.accounts_match(),
    {
        self.stake_state.is_record_of(&self.user, &self.nft_token_account)
    }

    /// The request of `user` over the asset in `nft_token_account`, or
    /// nothing when the record belongs to another owner or asset.
    pub fn new(user: Address, nft_token_account: Address, stake_state: UserStakeInfo) -> (ctx: Option<
        Redeem,
    >)
        ensures
            ctx == if (Redeem { user, nft_token_account, stake_state }).accounts_match() {
                Some(Redeem { user, nft_token_account, stake_state })
            } else {
                None
            },
    {
        let ctx = Redeem { user, nft_token_account, stake_state };
        if ctx.check_accounts() {
            Some(ctx)
        } else {
            None
        }
    }
}

impl Unstake {
    /// The record belongs to the owner and the asset of the request.
    pub open spec fn accounts_match(self) -> bool {
        self.stake_state.belongs_to(self.user, self.nft_token_account)
    }

    /// The redeem request over the same owner, asset and record.
    pub open spec fn as_redeem(self) -> Redeem {
        Redeem {
            user: self.user,
            nft_token_account: self.nft_token_account,
            stake_state: self.stake_state,
        }
    }

    /// What the custody layer is asked to do for an unstake at `now`: thaw
    /// the token account, withdraw the delegation, then mint the pending
    /// reward to the owner.
    pub open spec fn actions(self, config: ProgramConfig, now: i64) -> Seq<ActionModel> {
        seq![
            ActionModel::Thaw {
                asset: self.nft_token_account,
                instruction: thaw_instruction(
                    config.metadata_program,
                    config.custody_authority,
                    self.nft_token_account,
                    self.nft_edition,
                    self.nft_mint,
                ),
            },
            ActionModel::Revoke { asset: self.nft_token_account, owner: self.user },
            ActionModel::Mint {
                token: config.reward_mint,
                to: self.user,
                amount: self.stake_state.pending_reward(config.reward_units_per_day, now) as u128,
            },
        ]
    }

    /// These accounts after the unstake at `now` has gone through.
    pub open spec fn unstaked(self, config: ProgramConfig, now: i64) -> Unstake {
        Unstake {
            stake_state: self.stake_state.settled(config.reward_units_per_day, now).released(),
            ..self
        }
    }

    /// Whether the record belongs to the owner and the asset of the request.
    pub fn check_accounts(&self) -> (ok: bool)
        ensures
            ok == self.accounts_match(),
    {
        self.stake_state.is_record_of(&self.user, &self.nft_token_account)
    }

    /// The request of `user` over the asset in `nft_token_account`, or
    /// nothing when the record belongs to another owner or asset.
    pub fn new(
        user: Address,
        nft_token_account: Address,
        nft_mint: Address,
        nft_edition: Address,
        stake_state: UserStakeInfo,
    ) -> (ctx: Option<Unstake>)
        ensures
            ctx == if (Unstake {
                user,
                nft_token_account,
                nft_mint,
                nft_edition,
                stake_state,
            }).accounts_match() {
                Some(Unstake { user, nft_token_account, nft_mint, nft_edition, stake_state })
            } else {
                None
            },
    {
        let ctx = Unstake { user, nft_token_account, nft_mint, nft_edition, stake_state };
        if ctx.check_accounts() {
            Some(ctx)
        } else {
            None
        }
    }
}

/// Stakes the asset of `ctx` at `now`.
///
/// The record must belong to the owner and the asset of the request, as it
/// does in every request that [`Stake::new`] forms.
///
/// Succeeds exactly when the record is not staked. The record then names the
/// owner and the asset, is staked and initialized, and both its clocks stand
/// at `now`; the lifetime total is kept. The host must delegate and then
/// freeze the asset, as [`Stake::actions`] says. A record that is already
/// staked is refused with `AlreadyStaked` and nothing changes.
pub fn stake(config: &ProgramConfig, ctx: &mut Stake, now: i64) -> (result: Result<
    Vec<CustodyAction>,
    StakeError,
>)
    requires
        old(ctx).accounts_match(),
    ensures
        final(ctx).accounts_match(),
        final(ctx).stake_state == old(ctx).stake_state.after(
            config.reward_units_per_day,
            StakeRequest::Stake { user: old(ctx).user, token_account: old(ctx).nft_token_account },
            now,
        ),
        match result {
            Ok(actions) => {
                &&& old(ctx).stake_state.stake_error() is None
                &&& *final(ctx) == old(ctx).staked(now)
                &&& action_models(actions@) == old(ctx).actions(*config)
            },
            Err(e) => {
                &&& old(ctx).stake_state.stake_error() == Some(e)
                &&& *final(ctx) == *old(ctx)
            },
        },
{
    if ctx.stake_state.stake_state != StakeState::Unstaked {
        return Err(StakeError::AlreadyStaked);
    }
    let delegate = CustodyAction::Delegate {
        asset: ctx.nft_token_account,
        owner: ctx.user,
        custodian: config.custody_authority,
        amount: 1,
    };
    let freeze = CustodyAction::Freeze {
        asset: ctx.nft_token_account,
        instruction: freeze_delegated_account(
            &config.metadata_program,
            &config.custody_authority,
            &ctx.nft_token_account,
            &ctx.nft_edition,
            &ctx.nft_mint,
        ),
    };
    let actions = vec![delegate, freeze];
    ctx.stake_state.token_account = ctx.nft_token_account;
    ctx.stake_state.user_pubkey = ctx.user;
    ctx.stake_state.stake_state = StakeState::Staked;
    ctx.stake_state.stake_start_time = now;
    ctx.stake_state.last_stake_redeem = now;
    ctx.stake_state.is_initialized = true;
    assert(action_models(actions@) =~= old(ctx).actions(*config));
    Ok(actions)
}

/// Pays out the rewards that the asset of `ctx` has earned up to `now`.
///
/// The record must belong to the owner and the asset of the request, as it
/// does in every request that [`Redeem::new`] forms.
///
/// Succeeds exactly when [`UserStakeInfo::settlement_error`] finds nothing
/// wrong with the record. The pending reward is then added to the lifetime
/// total, the settlement clock stands at `now`, and the host must mint the
/// reward to the owner. On failure nothing changes.
pub fn redeem(config: &ProgramConfig, ctx: &mut Redeem, now: i64) -> (result: Result<
    Vec<CustodyAction>,
    StakeError,
>)
    requires
        old(ctx).accounts_match(),
    ensures
        final(ctx).accounts_match(),
        final(ctx).stake_state == old(ctx).stake_state.after(
            config.reward_units_per_day,
            StakeRequest::Redeem,
            now,
        ),
        match result {
            Ok(actions) => {
                &&& old(ctx).stake_state.settlement_error(config.reward_units_per_day, now) is None
                &&& *final(ctx) == old(ctx).redeemed(*config, now)
                &&& action_models(actions@) == old(ctx).actions(*config, now)
            },
            Err(e) => {
                &&& old(ctx).stake_state.settlement_error(config.reward_units_per_day, now) == Some(e)
                &&& *final(ctx) == *old(ctx)
            },
        },
{
    let amount = match ctx.stake_state.settle(config.reward_units_per_day, now) {
        Ok(amount) => amount,
        Err(e) => {
            return Err(e);
        },
    };
    let actions = vec![CustodyAction::Mint { token: config.reward_mint, to: ctx.user, amount: amount as u128 }];
    assert(action_models(actions@) =~= old(ctx).actions(*config, now));
    Ok(actions)
}

/// Takes the asset of `ctx` out of the stake at `now`.
///
/// The record must belong to the owner and the asset of the request, as it
/// does in every request that [`Unstake::new`] forms.
///
/// Succeeds exactly when a redeem at `now` would. The record is then settled
/// as by that redeem and left unstaked; the host must thaw the asset,
/// withdraw the delegation and mint the reward, in this order. On failure
/// nothing changes.
pub fn unstake(config: &ProgramConfig, ctx: &mut Unstake, now: i64) -> (result: Result<
    Vec<CustodyAction>,
    StakeError,
>)
    requires
        old(ctx).accounts_match(),
    ensures
        final(ctx).accounts_match(),
        final(ctx).stake_state == old(ctx).stake_state.after(
            config.reward_units_per_day,
            StakeRequest::Unstake,
            now,
        ),
        match result {
            Ok(actions) => {
                &&& old(ctx).stake_state.settlement_error(config.reward_units_per_day, now) is None
                &&& *final(ctx) == old(ctx).unstaked(*config, now)
                &&& action_models(actions@) == old(ctx).actions(*config, now)
            },
            Err(e) => {
                &&& old(ctx).stake_state.settlement_error(config.reward_units_per_day, now) == Some(e)
                &&& *final(ctx) == *old(ctx)
            },
        },
{
    let amount = match ctx.stake_state.settle(config.reward_units_per_day, now) {
        Ok(amount) => amount,
        Err(e) => {
            return Err(e);
        },
    };
    let thaw = CustodyAction::Thaw {
        asset: ctx.nft_token_account,
        instruction: thaw_delegated_account(
            &config.metadata_program,
            &config.custody_authority,
            &ctx.nft_token_account,
            &ctx.nft_edition,
            &ctx.nft_mint,
        ),
    };
    let revoke = CustodyAction::Revoke { asset: ctx.nft_token_account, owner: ctx.user };
    let mint = CustodyAction::Mint { token: config.reward_mint, to: ctx.user, amount: amount as u128 };
    let actions = vec![thaw, revoke, mint];
    ctx.stake_state.stake_state = StakeState::Unstaked;
    assert(action_models(actions@) =~= old(ctx).actions(*config, now));
    Ok(actions)
}

} // verus!
