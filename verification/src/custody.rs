//! The custody layer as the ledger sees it.
//!
//! The ledger never touches an asset or a token balance itself. Every
//! operation hands back the list of [`CustodyAction`]s that the host has to
//! carry out, in order, before it stores the new record. Freezing and thawing
//! are done by the token metadata program; the instruction that asks for it
//! is built here and travels inside the action.

use crate::address::Address;
use mpl_token_metadata::solana_program::pubkey::Pubkey;
use vstd::prelude::*;

verus! {

/// One account named by an instruction, and what the instruction may do with
/// it.
#[derive(Clone, Copy, Debug, PartialEq, Eq)]
pub struct InstructionAccount {
    pub address: Address,
    pub is_signer: bool,
    pub is_writable: bool,
}

impl InstructionAccount {
    /// The account with the given address bytes and permissions.
    pub fn new(bytes: [u8; 32], is_signer: bool, is_writable: bool) -> (account: InstructionAccount)
        ensures
            account == (InstructionAccount { address: Address { bytes }, is_signer, is_writable }),
    {
        InstructionAccount { address: Address { bytes }, is_signer, is_writable }
    }
}

/// An instruction for another program: the program, the accounts it is given
/// and the bytes it is to interpret.
#[derive(Clone, Debug, PartialEq, Eq)]
pub struct CustodyInstruction {
    pub program_id: Address,
    pub accounts: Vec<InstructionAccount>,
    pub data: Vec<u8>,
}

/// What a [`CustodyInstruction`] holds, as mathematical sequences.
pub struct InstructionModel {
    pub program_id: Address,
    pub accounts: Seq<InstructionAccount>,
    pub data: Seq<u8>,
}

impl View for CustodyInstruction {
    type V = InstructionModel;

    open spec fn view(&self) -> InstructionModel {
        InstructionModel {
            program_id: self.program_id,
            accounts: self.accounts@,
            data: self.data@,
        }
    }
}

/// The address of the token program, which every freeze and thaw instruction
/// names as its last account.
pub open spec fn token_program_address() -> Address {
    Address {
        bytes: [
            6u8, 221u8, 246u8, 225u8, 215u8, 101u8, 161u8, 147u8,
            217u8, 203u8, 225u8, 70u8, 206u8, 235u8, 121u8, 172u8,
            28u8, 180u8, 133u8, 237u8, 95u8, 91u8, 55u8, 145u8,
            58u8, 140u8, 245u8, 133u8, 126u8, 255u8, 0u8, 169u8,
        ],
    }
}

/// The accounts of an instruction that freezes or thaws a delegated token
/// account: the delegate signs and is writable, the token account is
/// writable, the edition, the mint and the token program are read.
pub open spec fn delegated_account_list(
    delegate: Address,
    token_account: Address,
    edition: Address,
    mint: Address,
) -> Seq<InstructionAccount> {
    seq![
        InstructionAccount { address: delegate, is_signer: true, is_writable: true },
        InstructionAccount { address: token_account, is_signer: false, is_writable: true },
        InstructionAccount { address: edition, is_signer: false, is_writable: false },
        InstructionAccount { address: mint, is_signer: false, is_writable: false },
        InstructionAccount { address: token_program_address(), is_signer: false, is_writable: false },
    ]
}

/// The tag byte by which the metadata program knows a freeze request.
pub const FREEZE_DELEGATED_ACCOUNT_TAG: u8 = 26;

/// The tag byte by which the metadata program knows a thaw request.
pub const THAW_DELEGATED_ACCOUNT_TAG: u8 = 27;

/// The instruction that asks `program` to freeze `token_account` on behalf
/// of `delegate`.
pub open spec fn freeze_instruction(
    program: Address,
    delegate: Address,
    token_account: Address,
    edition: Address,
    mint: Address,
) -> InstructionModel {
    InstructionModel {
        program_id: program,
        accounts: delegated_account_list(delegate, token_account, edition, mint),
        data: seq![FREEZE_DELEGATED_ACCOUNT_TAG],
    }
}

/// The instruction that asks `program` to thaw `token_account` on behalf of
/// `delegate`.
pub open spec fn thaw_instruction(
    program: Address,
    delegate: Address,
    token_account: Address,
    edition: Address,
    mint: Address,
) -> InstructionModel {
    InstructionModel {
        program_id: program,
        accounts: delegated_account_list(delegate, token_account, edition, mint),
        data: seq![THAW_DELEGATED_ACCOUNT_TAG],
    }
}

/// Calls `mpl_token_metadata::instruction::freeze_delegated_account`.
///
/// Trusted, not proved: the instruction it returns is addressed to `program`,
/// lists the five accounts of [`delegated_account_list`] in that order, and
/// carries the single tag byte of a freeze request.
#[verifier::external_body]
pub(crate) fn freeze_delegated_account(
    program: &Address,
    delegate: &Address,
    token_account: &Address,
    edition: &Address,
    mint: &Address,
) -> (instruction: CustodyInstruction)
    ensures
        instruction@ == freeze_instruction(*program, *delegate, *token_account, *edition, *mint),
{
    let key = Pubkey::new_from_array;
    let built = mpl_token_metadata::instruction::freeze_delegated_account(
        key(program.bytes), key(delegate.bytes), key(token_account.bytes), key(edition.bytes), key(mint.bytes),
    );
    let accounts = built.accounts.iter()
        .map(|a| InstructionAccount::new(a.pubkey.to_bytes(), a.is_signer, a.is_writable))
        .collect();
    CustodyInstruction { program_id: Address::new(built.program_id.to_bytes()), accounts, data: built.data }
}

/// Calls `mpl_token_metadata::instruction::thaw_delegated_account`.
///
/// Trusted, not proved: the instruction it returns is addressed to `program`,
/// lists the five accounts of [`delegated_account_list`] in that order, and
/// carries the single tag byte of a thaw request.
#[verifier::external_body]
pub(crate) fn thaw_delegated_account(
    program: &Address,
    delegate: &Address,
    token_account: &Address,
    edition: &Address,
    mint: &Address,
) -> (instruction: CustodyInstruction)
    ensures
        instruction@ == thaw_instruction(*program, *delegate, *token_account, *edition, *mint),
{
    let key = Pubkey::new_from_array;
    let built = mpl_token_metadata::instruction::thaw_delegated_account(
        key(program.bytes), key(delegate.bytes), key(token_account.bytes), key(edition.bytes), key(mint.bytes),
    );
    let accounts = built.accounts.iter()
        .map(|a| InstructionAccount::new(a.pubkey.to_bytes(), a.is_signer, a.is_writable))
        .collect();
    CustodyInstruction { program_id: Address::new(built.program_id.to_bytes()), accounts, data: built.data }
}

/// One request to the custody layer.
#[derive(Clone, Debug, PartialEq, Eq)]
pub enum CustodyAction {
    /// Let `custodian` act for `owner` over `amount` units held in `asset`.
    Delegate { asset: Address, owner: Address, custodian: Address, amount: u128 },
    /// Freeze `asset` by sending `instruction`, signed by the custodian.
    Freeze { asset: Address, instruction: CustodyInstruction },
    /// Thaw `asset` by sending `instruction`, signed by the custodian.
    Thaw { asset: Address, instruction: CustodyInstruction },
    /// Withdraw the delegation that `owner` gave over `asset`.
    Revoke { asset: Address, owner: Address },
    /// Create `amount` units of `token` for `to`.
    Mint { token: Address, to: Address, amount: u128 },
    /// Destroy `amount` units of `token` held by `from`.
    Burn { token: Address, from: Address, amount: u128 },
}

/// What a [`CustodyAction`] asks for, with instructions as sequences.
pub enum ActionModel {
    Delegate { asset: Address, owner: Address, custodian: Address, amount: u128 },
    Freeze { asset: Address, instruction: InstructionModel },
    Thaw { asset: Address, instruction: InstructionModel },
    Revoke { asset: Address, owner: Address },
    Mint { token: Address, to: Address, amount: u128 },
    Burn { token: Address, from: Address, amount: u128 },
}

impl View for CustodyAction {
    type V = ActionModel;

    open spec fn view(&self) -> ActionModel {
        match *self {
            CustodyAction::Delegate { asset, owner, custodian, amount } => ActionModel::Delegate {
                asset,
                owner,
                custodian,
                amount,
            },
            CustodyAction::Freeze { asset, instruction } => ActionModel::Freeze {
                asset,
                instruction: instruction@,
            },
            CustodyAction::Thaw { asset, instruction } => ActionModel::Thaw {
                asset,
                instruction: instruction@,
            },
            CustodyAction::Revoke { asset, owner } => ActionModel::Revoke { asset, owner },
            CustodyAction::Mint { token, to, amount } => ActionModel::Mint { token, to, amount },
            CustodyAction::Burn { token, from, amount } => ActionModel::Burn { token, from, amount },
        }
    }
}

/// The requests of a list of actions, one for one and in the same order.
pub open spec fn action_models(actions: Seq<CustodyAction>) -> Seq<ActionModel> {
    actions.map_values(|a: CustodyAction| a@)
}

} // verus!
