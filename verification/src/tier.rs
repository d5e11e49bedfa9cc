//! Lootbox tiers: the prices at which a box can be opened form the doubling
//! sequence 10, 20, 40, 80, ...

use vstd::arithmetic::power2::{
    lemma2_to64, lemma2_to64_rest, lemma_pow2_strictly_increases, pow2,
};
use vstd::prelude::*;

verus! {

/// The lowest tier.
pub const BASE_LOOTBOX_TIER: u64 = 10;

/// Base units of the reward token burned per unit of tier.
pub const LOOTBOX_UNITS_PER_TIER: u128 = 100;

/// The tier reached after doubling the base tier `k` times.
pub open spec fn lootbox_tier(k: nat) -> nat {
    10 * pow2(k)
}

/// `tier` is one of 10, 20, 40, 80, ...
pub open spec fn is_lootbox_tier(tier: nat) -> bool {
    exists|k: nat| lootbox_tier(k) == tier
}

/// What is burned to open a box of `tier`.
pub open spec fn lootbox_price(tier: nat) -> nat {
    tier * 100
}

/// `q` is one of the 64 values of a `u64` with exactly one bit set.
spec fn has_single_bit(q: u64) -> bool {
            ||| q == 0x1
            ||| q == 0x2
            ||| q == 0x4
            ||| q == 0x8
            ||| q == 0x10
            ||| q == 0x20
            ||| q == 0x40
            ||| q == 0x80
            ||| q == 0x100
            ||| q == 0x200
            ||| q == 0x400
            ||| q == 0x800
            ||| q == 0x1000
            ||| q == 0x2000
            ||| q == 0x4000
            ||| q == 0x8000
            ||| q == 0x10000
            ||| q == 0x20000
            ||| q == 0x40000
            ||| q == 0x80000
            ||| q == 0x100000
            ||| q == 0x200000
            ||| q == 0x400000
            ||| q == 0x800000
            ||| q == 0x1000000
            ||| q == 0x2000000
            ||| q == 0x4000000
            ||| q == 0x8000000
            ||| q == 0x10000000
            ||| q == 0x20000000
            ||| q == 0x40000000
            ||| q == 0x80000000
            ||| q == 0x100000000
            ||| q == 0x200000000
            ||| q == 0x400000000
            ||| q == 0x800000000
            ||| q == 0x1000000000
            ||| q == 0x2000000000
            ||| q == 0x4000000000
            ||| q == 0x8000000000
            ||| q == 0x10000000000
            ||| q == 0x20000000000
            ||| q == 0x40000000000
            ||| q == 0x80000000000
            ||| q == 0x100000000000
            ||| q == 0x200000000000
            ||| q == 0x400000000000
            ||| q == 0x800000000000
            ||| q == 0x1000000000000
            ||| q == 0x2000000000000
            ||| q == 0x4000000000000
            ||| q == 0x8000000000000
            ||| q == 0x10000000000000
            ||| q == 0x20000000000000
            ||| q == 0x40000000000000
            ||| q == 0x80000000000000
            ||| q == 0x100000000000000
            ||| q == 0x200000000000000
            ||| q == 0x400000000000000
            ||| q == 0x800000000000000
            ||| q == 0x1000000000000000
            ||| q == 0x2000000000000000
            ||| q == 0x4000000000000000
            ||| q == 0x8000000000000000
}

/// A `u64` has exactly one bit set when it is not zero and shares no bit
/// with its predecessor.
proof fn lemma_single_bit_test(q: u64)
    requires
        q != 0,
    ensures
        (q & ((q - 1) as u64) == 0) <==> has_single_bit(q),
{
    assert((q & ((q - 1) as u64) == 0) <==> has_single_bit(q)) by (bit_vector)
        requires
            q != 0,
    ;
}

/// The values of a `u64` with exactly one bit set are the powers of two.
proof fn lemma_single_bit_is_power_of_two(q: u64)
    ensures
        has_single_bit(q) <==> exists|k: nat| pow2(k) == q,
{
    lemma2_to64();
    lemma2_to64_rest();
    if exists|k: nat| pow2(k) == q {
        let k = choose|k: nat| pow2(k) == q;
        if k >= 64 {
            if k > 64 {
                lemma_pow2_strictly_increases(64, k);
            }
            assert(false);
        }
        assert(has_single_bit(q));
    }
}

/// Each tier is twice the one before it.
pub proof fn lemma_tiers_double(k: nat)
    ensures
        lootbox_tier(k + 1) == 2 * lootbox_tier(k),
        lootbox_tier(0) == 10,
{
    vstd::arithmetic::power2::lemma_pow2_unfold(k + 1);
    lemma2_to64();
}

/// Whether `box_number` is a lootbox tier.
///
/// A tier is ten times a power of two, so the number must be a multiple of
/// ten whose tenth has a single bit set.
pub fn is_valid_tier(box_number: u64) -> (ok: bool)
    ensures
        ok == is_lootbox_tier(box_number as nat),
{
    if box_number % BASE_LOOTBOX_TIER != 0 {
        return false;
    }
    let q: u64 = box_number / BASE_LOOTBOX_TIER;
    if q == 0 {
        proof {
            assert forall|k: nat| lootbox_tier(k) != box_number as nat by {
                vstd::arithmetic::power2::lemma_pow2_pos(k);
            }
        }
        return false;
    }
    let ok = q & (q - 1) == 0;
    proof {
        lemma_single_bit_test(q);
        lemma_single_bit_is_power_of_two(q);
        if ok {
            let k = choose|k: nat| pow2(k) == q;
            assert(lootbox_tier(k) == box_number as nat);
        }
        if is_lootbox_tier(box_number as nat) {
            let k = choose|k: nat| lootbox_tier(k) == box_number as nat;
            assert(pow2(k) == q);
        }
    }
    ok
}

} // verus!
