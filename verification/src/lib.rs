//! Verified core of an NFT staking programme with a lootbox redemption
//! mechanic: the stake / redeem / unstake state machine, linear reward
//! accrual, lootbox tier gating and exactly-once claims.
//!
//! Every operation is a function from the ledger record and the current time
//! to the next record and the custody actions the host must perform.

pub mod address;
pub mod catalog;
pub mod config;
pub mod custody;
pub mod laws;
pub mod lootbox;
pub mod reward;
pub mod staking;
pub mod tier;
