//! What a deployment fixes once and every operation is handed.

use crate::address::Address;
use crate::catalog::ItemCatalog;
use vstd::prelude::*;

verus! {

/// The identities and parameters of one deployment.
///
/// Nothing here is read from ambient state: the host passes the
/// configuration into every operation.
#[derive(Clone, Debug, PartialEq, Eq)]
pub struct ProgramConfig {
    /// The authority that holds staked assets in custody.
    pub custody_authority: Address,
    /// The program that freezes and thaws token accounts.
    pub metadata_program: Address,
    /// The token in which rewards are paid and lootboxes are priced.
    pub reward_mint: Address,
    /// Base units of the reward token earned per staked day.
    pub reward_units_per_day: i64,
    /// The items a lootbox can hold, in catalog order.
    pub item_catalog: ItemCatalog,
}

} // verus!
