//! Arithmetic bounds behind the engine: products of 64-bit amounts fit
//! the widened 128-bit intermediates, and the floor-divided payouts of
//! the pricing and redemption formulas stay within the reserves.

use vstd::arithmetic::div_mod::lemma_div_multiples_vanish;
use vstd::arithmetic::div_mod::lemma_div_pos_is_pos;
use vstd::arithmetic::div_mod::lemma_multiply_divide_le;
use vstd::arithmetic::div_mod::lemma_multiply_divide_lt;
use vstd::arithmetic::mul::lemma_mul_inequality;
use vstd::arithmetic::mul::lemma_mul_is_commutative;
use vstd::arithmetic::mul::lemma_mul_nonnegative;
use vstd::arithmetic::mul::lemma_mul_strict_inequality;
use vstd::arithmetic::mul::lemma_mul_upper_bound;
use vstd::prelude::*;

verus! {

/// The product of two 64-bit amounts fits the 128-bit intermediates
/// the engine computes with.
pub(crate) proof fn lemma_u64_mul_fits(a: u64, b: u64)
    ensures
        a * b <= u64::MAX * u64::MAX,
        a * b <= u128::MAX,
{
    lemma_mul_upper_bound(a as int, u64::MAX as int, b as int, u64::MAX as int);
}

/// The floor of `numerator / divisor` stays within `bound` as long as
/// the numerator is at most `bound * divisor`, and it is nonnegative.
pub(crate) proof fn lemma_div_within(numerator: int, divisor: int, bound: int)
    requires
        0 < divisor,
        0 <= numerator,
        numerator <= bound * divisor,
    ensures
        0 <= numerator / divisor <= bound,
{
    lemma_div_pos_is_pos(numerator, divisor);
    lemma_mul_is_commutative(bound, divisor);
    lemma_multiply_divide_le(numerator, divisor, bound);
}

/// A proportional payout `floor(claims * reserve / supply)` never
/// exceeds the reserve when `claims <= supply`; it equals the reserve
/// when all claims are redeemed, and stays strictly below a positive
/// reserve when some claims remain.
pub(crate) proof fn lemma_withdraw_within_reserve(claims: u64, reserve: u64, supply: u64)
    requires
        0 < supply,
        claims <= supply,
    ensures
        0 <= (claims * reserve) / (supply as int) <= reserve,
        claims == supply ==> (claims * reserve) / (supply as int) == reserve,
        claims < supply && reserve > 0 ==> (claims * reserve) / (supply as int) < reserve,
{
    lemma_mul_nonnegative(claims as int, reserve as int);
    lemma_mul_inequality(claims as int, supply as int, reserve as int);
    lemma_div_within(claims * reserve, supply as int, reserve as int);
    if claims == supply {
        lemma_div_multiples_vanish(reserve as int, supply as int);
        lemma_mul_is_commutative(supply as int, reserve as int);
    }
    if claims < supply && reserve > 0 {
        lemma_mul_strict_inequality(claims as int, supply as int, reserve as int);
        lemma_mul_is_commutative(supply as int, reserve as int);
        lemma_multiply_divide_lt(claims * reserve, supply as int, reserve as int);
    }
}

} // verus!
