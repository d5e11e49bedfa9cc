//! Reward accrual: a staked asset earns at a constant rate, and what it has
//! earned is the whole number of base units that the elapsed time buys.

use vstd::prelude::*;

verus! {

/// The length of a day in seconds.
pub const SECONDS_PER_DAY: i64 = 86_400;

/// The emission of the reward token in base units per staked day:
/// ten thousand million tokens of one hundred base units each.
pub const REWARD_UNITS_PER_DAY: i64 = 1_000_000_000_000;

/// The reward for `elapsed` seconds at `units_per_day` base units a day,
/// rounded down to a whole base unit.
pub open spec fn reward(units_per_day: int, elapsed: int) -> int {
    (elapsed * units_per_day) / (SECONDS_PER_DAY as int)
}

/// A rate earns nothing in no time.
pub proof fn lemma_reward_of_no_time(units_per_day: int)
    ensures
        reward(units_per_day, 0) == 0,
{
    assert(0 * units_per_day == 0) by (nonlinear_arith);
}

/// A positive rate never earns a negative amount over a time that has not
/// run backwards.
pub proof fn lemma_reward_is_not_negative(units_per_day: int, elapsed: int)
    requires
        units_per_day > 0,
        elapsed >= 0,
    ensures
        reward(units_per_day, elapsed) >= 0,
{
    assert(elapsed * units_per_day >= 0) by (nonlinear_arith)
        requires
            units_per_day > 0,
            elapsed >= 0,
    ;
}

/// The reward accrued between `since` and `now` at `units_per_day`.
///
/// There is none to give when the rate is not positive or when the clock
/// has run backwards; otherwise it is exactly [`reward`] of the elapsed
/// seconds.
pub fn accrued_reward(units_per_day: i64, since: i64, now: i64) -> (amount: Option<u128>)
    ensures
        amount is Some <==> units_per_day > 0 && since <= now,
        amount matches Some(a) ==> a == reward(units_per_day as int, now - since),
{
    if units_per_day <= 0 || now < since {
        return None;
    }
    let elapsed: u128 = (now as i128 - since as i128) as u128;
    let rate: u128 = units_per_day as u128;
    assert(elapsed * rate <= 0xffff_ffff_ffff_ffff * 0x7fff_ffff_ffff_ffff) by (nonlinear_arith)
        requires
            0 <= elapsed <= 0xffff_ffff_ffff_ffff,
            0 <= rate <= 0x7fff_ffff_ffff_ffff,
    ;
    let total: u128 = elapsed * rate;
    Some(total / (SECONDS_PER_DAY as u128))
}

} // verus!
