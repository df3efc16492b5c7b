//! The engine's laws, each stated over the spec-level transition
//! functions of `pool` and proved here.

use vstd::arithmetic::div_mod::lemma_fundamental_div_mod;
use vstd::arithmetic::div_mod::lemma_mod_division_less_than_divisor;
use vstd::arithmetic::mul::lemma_mul_inequality;
use vstd::arithmetic::mul::lemma_mul_is_commutative;
use vstd::arithmetic::mul::lemma_mul_nonnegative;
use vstd::prelude::*;

use crate::math::lemma_div_within;
use crate::math::lemma_withdraw_within_reserve;
use crate::pool::claims_consistent;
use crate::pool::spec_add_liquidity;
use crate::pool::spec_initialize;
use crate::pool::spec_remove_liquidity;
use crate::pool::spec_swap;
use crate::pool::spec_swap_amount_out;
use crate::pool::spec_swap_reserve_in;
use crate::pool::spec_swap_reserve_out;
use crate::pool::ErrorCode;
use crate::pool::Pool;

verus! {

/// The constant-product curve never pays out more than the outgoing
/// reserve holds: for a positive trade the computed output lies
/// between zero and `reserve_out`, so the reserve subtraction of a
/// swap cannot underflow.
pub proof fn lemma_swap_output_within_reserve(reserve_in: u64, reserve_out: u64, amount_in: u64)
    requires
        amount_in > 0,
    ensures
        0 <= spec_swap_amount_out(reserve_in, reserve_out, amount_in) <= reserve_out,
{
    let rin = reserve_in as int;
    let rout = reserve_out as int;
    let ain = amount_in as int;
    lemma_mul_nonnegative(rout, ain);
    lemma_mul_inequality(ain, rin + ain, rout);
    lemma_mul_is_commutative(rout, ain);
    lemma_mul_is_commutative(rout, rin + ain);
    lemma_div_within(rout * ain, rin + ain, rout);
}

/// The defensive guard on the swap's reserve subtraction never fires:
/// no input makes `swap` report `InsufficientReserve`.
pub proof fn lemma_swap_never_insufficient_reserve(
    p: Pool,
    amount_in: u64,
    min_amount_out: u64,
    is_token_a: bool,
)
    ensures
        spec_swap(p, amount_in, min_amount_out, is_token_a) != Err::<(Pool, u64), ErrorCode>(
            ErrorCode::InsufficientReserve,
        ),
{
    if amount_in > 0 {
        lemma_swap_output_within_reserve(
            spec_swap_reserve_in(p, is_token_a),
            spec_swap_reserve_out(p, is_token_a),
            amount_in,
        );
    }
}

/// The defensive guards on the redemption's reserve subtractions never
/// fire: no input makes `remove_liquidity` report `InsufficientReserve`.
pub proof fn lemma_remove_never_insufficient_reserve(p: Pool, claims: u64)
    ensures
        spec_remove_liquidity(p, claims) != Err::<(Pool, (u64, u64)), ErrorCode>(
            ErrorCode::InsufficientReserve,
        ),
{
    if 0 < p.total_claim_supply && claims <= p.total_claim_supply {
        lemma_withdraw_within_reserve(claims, p.reserve_a, p.total_claim_supply);
        lemma_withdraw_within_reserve(claims, p.reserve_b, p.total_claim_supply);
    }
}

/// Product non-decreasing: a swap of a positive amount that succeeds
/// never lowers the product of the two reserves (the floor division
/// can only leave the pool slightly ahead of the ideal curve).
pub proof fn lemma_swap_product_nondecreasing(
    p: Pool,
    amount_in: u64,
    min_amount_out: u64,
    is_token_a: bool,
    q: Pool,
    amount_out: u64,
)
    requires
        amount_in > 0,
        spec_swap(p, amount_in, min_amount_out, is_token_a) == Ok::<(Pool, u64), ErrorCode>(
            (q, amount_out),
        ),
    ensures
        q.reserve_a * q.reserve_b >= p.reserve_a * p.reserve_b,
{
    let rin = spec_swap_reserve_in(p, is_token_a) as int;
    let rout = spec_swap_reserve_out(p, is_token_a) as int;
    let ain = amount_in as int;
    let d = rin + ain;
    let out = spec_swap_amount_out(
        spec_swap_reserve_in(p, is_token_a),
        spec_swap_reserve_out(p, is_token_a),
        amount_in,
    );
    lemma_fundamental_div_mod(rout * ain, d);
    lemma_mod_division_less_than_divisor(rout * ain, d);
    assert(d * out <= rout * ain);
    assert(d * (rout - out) >= rin * rout) by (nonlinear_arith)
        requires
            d == rin + ain,
            d * out <= rout * ain,
    ;
    if is_token_a {
        assert(q.reserve_a == d && q.reserve_b == rout - out);
        lemma_mul_is_commutative(rin, rout);
    } else {
        assert(q.reserve_b == d && q.reserve_a == rout - out);
        lemma_mul_is_commutative(rout - out, d);
    }
}

/// A freshly seeded pool is claims-reserves consistent exactly when it
/// is seeded empty: nonzero seeds open the deliberate window of a pool
/// with reserves but no claims, which the first deposit closes.
pub proof fn lemma_initialize_consistency_window(seed_a: u64, seed_b: u64)
    ensures
        claims_consistent(spec_initialize(seed_a, seed_b)) <==> (seed_a == 0 && seed_b == 0),
{
}

/// Claims-reserves consistency is preserved by `add_liquidity`: a
/// deposit into a consistent pool leaves a consistent pool.
pub proof fn lemma_add_liquidity_preserves_consistency(
    p: Pool,
    amount_a: u64,
    amount_b: u64,
    q: Pool,
    minted: u64,
)
    requires
        claims_consistent(p),
        spec_add_liquidity(p, amount_a, amount_b) == Ok::<(Pool, u64), ErrorCode>((q, minted)),
    ensures
        claims_consistent(q),
{
}

/// Claims-reserves consistency is preserved by `swap` on a pool that
/// holds liquidity. (A pool with zero claims and zero reserves is the
/// one consistent state a successful swap can leave inconsistent: the
/// trade fills one reserve while the claim supply stays zero.)
pub proof fn lemma_swap_preserves_consistency(
    p: Pool,
    amount_in: u64,
    min_amount_out: u64,
    is_token_a: bool,
    q: Pool,
    amount_out: u64,
)
    requires
        claims_consistent(p),
        p.total_claim_supply > 0,
        spec_swap(p, amount_in, min_amount_out, is_token_a) == Ok::<(Pool, u64), ErrorCode>(
            (q, amount_out),
        ),
    ensures
        claims_consistent(q),
{
}

/// Claims-reserves consistency is preserved by `remove_liquidity`: a
/// full redemption empties the pool entirely, and a partial one leaves
/// claims outstanding against a still-positive reserve.
pub proof fn lemma_remove_liquidity_preserves_consistency(
    p: Pool,
    claims: u64,
    q: Pool,
    withdrawn: (u64, u64),
)
    requires
        claims_consistent(p),
        spec_remove_liquidity(p, claims) == Ok::<(Pool, (u64, u64)), ErrorCode>((q, withdrawn)),
    ensures
        claims_consistent(q),
{
    lemma_withdraw_within_reserve(claims, p.reserve_a, p.total_claim_supply);
    lemma_withdraw_within_reserve(claims, p.reserve_b, p.total_claim_supply);
}

/// Proportionality of redemption: redeeming every outstanding claim
/// withdraws both reserves exactly and leaves the empty pool.
pub proof fn lemma_full_redemption_drains_pool(
    p: Pool,
    q: Pool,
    withdraw_a: u64,
    withdraw_b: u64,
)
    requires
        spec_remove_liquidity(p, p.total_claim_supply) == Ok::<(Pool, (u64, u64)), ErrorCode>(
            (q, (withdraw_a, withdraw_b)),
        ),
    ensures
        withdraw_a == p.reserve_a,
        withdraw_b == p.reserve_b,
        q == (Pool { reserve_a: 0, reserve_b: 0, total_claim_supply: 0 }),
{
    lemma_withdraw_within_reserve(p.total_claim_supply, p.reserve_a, p.total_claim_supply);
    lemma_withdraw_within_reserve(p.total_claim_supply, p.reserve_b, p.total_claim_supply);
}

/// Slippage boundary: the check is inclusive. A swap whose floor
/// equals the true computed output succeeds; a floor one unit higher
/// fails with `SlippageExceeded` (and, by the operations' contracts, a
/// failed call leaves the pool unchanged).
pub proof fn lemma_slippage_boundary(p: Pool, amount_in: u64, is_token_a: bool)
    requires
        amount_in > 0,
        spec_swap_reserve_in(p, is_token_a) + amount_in <= u64::MAX,
    ensures
        spec_swap(
            p,
            amount_in,
            spec_swap_amount_out(
                spec_swap_reserve_in(p, is_token_a),
                spec_swap_reserve_out(p, is_token_a),
                amount_in,
            ) as u64,
            is_token_a,
        ) is Ok,
        spec_swap_amount_out(
            spec_swap_reserve_in(p, is_token_a),
            spec_swap_reserve_out(p, is_token_a),
            amount_in,
        ) < u64::MAX ==> spec_swap(
            p,
            amount_in,
            (spec_swap_amount_out(
                spec_swap_reserve_in(p, is_token_a),
                spec_swap_reserve_out(p, is_token_a),
                amount_in,
            ) + 1) as u64,
            is_token_a,
        ) == Err::<(Pool, u64), ErrorCode>(ErrorCode::SlippageExceeded),
{
    lemma_swap_output_within_reserve(
        spec_swap_reserve_in(p, is_token_a),
        spec_swap_reserve_out(p, is_token_a),
        amount_in,
    );
}

} // verus!
