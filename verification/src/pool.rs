//! The pool record, its failure kinds, and the four operations of the
//! engine, each specified against a spec-level transition function.

use vstd::prelude::*;

verus! {

/// A constant-product automated market maker pool: the reserves of two
/// fungible assets and the total supply of outstanding liquidity-claim
/// units. Per-participant claim balances are the host's bookkeeping;
/// the engine tracks only the totals.
#[derive(Clone, Copy, PartialEq, Eq, Structural, Debug)]
pub struct Pool {
    /// Units of asset A held by the pool.
    pub reserve_a: u64,
    /// Units of asset B held by the pool.
    pub reserve_b: u64,
    /// Total outstanding liquidity-claim units.
    pub total_claim_supply: u64,
}

/// The failure kinds of the engine. Every operation either returns a
/// fully updated pool or fails with one of these and changes nothing.
#[derive(Clone, Copy, PartialEq, Eq, Structural, Debug)]
pub enum ErrorCode {
    /// An addition would exceed the 64-bit amount domain.
    ArithmeticOverflow,
    /// A withdrawal or swap output would exceed the reserve it is paid
    /// from. The guards that report this kind defend the reserve
    /// subtractions; `laws::lemma_swap_never_insufficient_reserve` and
    /// `laws::lemma_remove_never_insufficient_reserve` prove the
    /// formulas never reach them.
    InsufficientReserve,
    /// A denominator (a reserve, or the claim supply) is zero when it
    /// must not be.
    DivisionByZero,
    /// The computed swap output is below the caller's declared floor.
    SlippageExceeded,
    /// A redemption asks for more claim units than are outstanding.
    InsufficientClaims,
    /// A swap of zero units.
    InvalidArgument,
}

/// Claims-reserves consistency: the claim supply is zero exactly when
/// both reserves are zero.
pub open spec fn claims_consistent(p: Pool) -> bool {
    p.total_claim_supply == 0 <==> (p.reserve_a == 0 && p.reserve_b == 0)
}

/// The pool produced by `initialize_pool`: the seed amounts as
/// reserves and no claim units outstanding.
pub open spec fn spec_initialize(seed_a: u64, seed_b: u64) -> Pool {
    Pool { reserve_a: seed_a, reserve_b: seed_b, total_claim_supply: 0 }
}

/// The claim units a deposit of `amount_a` and `amount_b` mints: the
/// sum of the two amounts when no claims are outstanding (the unit
/// convention of the first deposit), otherwise the smaller of the two
/// proportional entitlements, floor-divided, so a disproportionate
/// deposit never over-mints against either reserve.
pub open spec fn spec_minted_claims(p: Pool, amount_a: u64, amount_b: u64) -> int {
    if p.total_claim_supply == 0 {
        amount_a + amount_b
    } else {
        vstd::math::min(
            (amount_a * p.total_claim_supply) / (p.reserve_a as int),
            (amount_b * p.total_claim_supply) / (p.reserve_b as int),
        )
    }
}

/// The full transition of `add_liquidity`: the checks in the order the
/// engine makes them, then the updated pool and the minted claims.
pub open spec fn spec_add_liquidity(p: Pool, amount_a: u64, amount_b: u64) -> Result<
    (Pool, u64),
    ErrorCode,
> {
    if p.total_claim_supply != 0 && (p.reserve_a == 0 || p.reserve_b == 0) {
        Err(ErrorCode::DivisionByZero)
    } else {
        let minted = spec_minted_claims(p, amount_a, amount_b);
        if p.reserve_a + amount_a > u64::MAX || p.reserve_b + amount_b > u64::MAX
            || p.total_claim_supply + minted > u64::MAX {
            Err(ErrorCode::ArithmeticOverflow)
        } else {
            Ok(
                (
                    Pool {
                        reserve_a: (p.reserve_a + amount_a) as u64,
                        reserve_b: (p.reserve_b + amount_b) as u64,
                        total_claim_supply: (p.total_claim_supply + minted) as u64,
                    },
                    minted as u64,
                ),
            )
        }
    }
}

/// The proportional share of one reserve that redeeming `claims` of
/// `supply` outstanding units pays out, floor-divided in the pool's
/// favor.
pub open spec fn spec_withdraw_share(claims: u64, reserve: u64, supply: u64) -> int {
    (claims * reserve) / (supply as int)
}

/// The full transition of `remove_liquidity`: the checks in the order
/// the engine makes them, then the updated pool and the pair of
/// withdrawn amounts.
pub open spec fn spec_remove_liquidity(p: Pool, claims: u64) -> Result<
    (Pool, (u64, u64)),
    ErrorCode,
> {
    if p.total_claim_supply == 0 {
        Err(ErrorCode::DivisionByZero)
    } else if claims > p.total_claim_supply {
        Err(ErrorCode::InsufficientClaims)
    } else {
        let withdraw_a = spec_withdraw_share(claims, p.reserve_a, p.total_claim_supply);
        let withdraw_b = spec_withdraw_share(claims, p.reserve_b, p.total_claim_supply);
        if withdraw_a > p.reserve_a || withdraw_b > p.reserve_b {
            Err(ErrorCode::InsufficientReserve)
        } else {
            Ok(
                (
                    Pool {
                        reserve_a: (p.reserve_a - withdraw_a) as u64,
                        reserve_b: (p.reserve_b - withdraw_b) as u64,
                        total_claim_supply: (p.total_claim_supply - claims) as u64,
                    },
                    (withdraw_a as u64, withdraw_b as u64),
                ),
            )
        }
    }
}

/// The reserve a swap pays into, selected by its direction.
pub open spec fn spec_swap_reserve_in(p: Pool, is_token_a: bool) -> u64 {
    if is_token_a {
        p.reserve_a
    } else {
        p.reserve_b
    }
}

/// The reserve a swap pays out of, selected by its direction.
pub open spec fn spec_swap_reserve_out(p: Pool, is_token_a: bool) -> u64 {
    if is_token_a {
        p.reserve_b
    } else {
        p.reserve_a
    }
}

/// The constant-product price of a trade:
/// `floor(reserve_out * amount_in / (reserve_in + amount_in))`.
pub open spec fn spec_swap_amount_out(reserve_in: u64, reserve_out: u64, amount_in: u64) -> int {
    (reserve_out * amount_in) / (reserve_in + amount_in)
}

/// The full transition of `swap`: the checks in the order the engine
/// makes them, then the updated pool and the output amount.
pub open spec fn spec_swap(p: Pool, amount_in: u64, min_amount_out: u64, is_token_a: bool) -> Result<
    (Pool, u64),
    ErrorCode,
> {
    let rin = spec_swap_reserve_in(p, is_token_a);
    let rout = spec_swap_reserve_out(p, is_token_a);
    let out = spec_swap_amount_out(rin, rout, amount_in);
    if amount_in == 0 {
        Err(ErrorCode::InvalidArgument)
    } else if out < min_amount_out {
        Err(ErrorCode::SlippageExceeded)
    } else if rin + amount_in > u64::MAX {
        Err(ErrorCode::ArithmeticOverflow)
    } else if out > rout {
        Err(ErrorCode::InsufficientReserve)
    } else {
        let q = if is_token_a {
            Pool {
                reserve_a: (rin + amount_in) as u64,
                reserve_b: (rout - out) as u64,
                total_claim_supply: p.total_claim_supply,
            }
        } else {
            Pool {
                reserve_a: (rout - out) as u64,
                reserve_b: (rin + amount_in) as u64,
                total_claim_supply: p.total_claim_supply,
            }
        };
        Ok((q, out as u64))
    }
}

impl Pool {
    /// Creates a pool holding the seed amounts. No claim units are
    /// minted here: the first deposit establishes the claim supply, so
    /// a freshly seeded pool has nonzero reserves and zero claims.
    pub fn initialize_pool(seed_a: u64, seed_b: u64) -> (p: Pool)
        ensures
            p == spec_initialize(seed_a, seed_b),
    {
        Pool { reserve_a: seed_a, reserve_b: seed_b, total_claim_supply: 0 }
    }

    /// Deposits a pair of amounts into the reserves and returns the
    /// claim units minted for the depositor (crediting them is the
    /// host's bookkeeping). The engine does not reject disproportionate
    /// deposits; it mints the conservative minimum of the two
    /// entitlements. A nonzero claim supply next to an empty reserve is
    /// an inconsistent record and is rejected rather than divided by;
    /// any addition leaving the 64-bit domain fails the overflow check.
    /// On any failure the pool is unchanged.
    pub fn add_liquidity(&mut self, amount_a: u64, amount_b: u64) -> (r: Result<u64, ErrorCode>)
        ensures
            (match r {
                Ok(minted) => spec_add_liquidity(*old(self), amount_a, amount_b)
                    == Ok::<(Pool, u64), ErrorCode>((*final(self), minted)),
                Err(e) => spec_add_liquidity(*old(self), amount_a, amount_b)
                    == Err::<(Pool, u64), ErrorCode>(e),
            }),
            r is Err ==> *final(self) == *old(self),
    {
        if self.total_claim_supply != 0 && (self.reserve_a == 0 || self.reserve_b == 0) {
            return Err(ErrorCode::DivisionByZero);
        }
        let minted_wide: u128 = if self.total_claim_supply == 0 {
            amount_a as u128 + amount_b as u128
        } else {
            proof {
                crate::math::lemma_u64_mul_fits(amount_a, self.total_claim_supply);
                crate::math::lemma_u64_mul_fits(amount_b, self.total_claim_supply);
            }
            let supply: u128 = self.total_claim_supply as u128;
            let from_a: u128 = amount_a as u128 * supply / (self.reserve_a as u128);
            let from_b: u128 = amount_b as u128 * supply / (self.reserve_b as u128);
            if from_a <= from_b {
                from_a
            } else {
                from_b
            }
        };
        if self.reserve_a as u128 + amount_a as u128 > u64::MAX as u128 {
            return Err(ErrorCode::ArithmeticOverflow);
        }
        if self.reserve_b as u128 + amount_b as u128 > u64::MAX as u128 {
            return Err(ErrorCode::ArithmeticOverflow);
        }
        if minted_wide > u64::MAX as u128 {
            return Err(ErrorCode::ArithmeticOverflow);
        }
        let minted: u64 = minted_wide as u64;
        if self.total_claim_supply as u128 + minted as u128 > u64::MAX as u128 {
            return Err(ErrorCode::ArithmeticOverflow);
        }
        self.reserve_a = self.reserve_a + amount_a;
        self.reserve_b = self.reserve_b + amount_b;
        self.total_claim_supply = self.total_claim_supply + minted;
        Ok(minted)
    }

    /// Trades `amount_in` of one asset for the other along the
    /// constant-product curve (A to B when `is_token_a`, else B to A)
    /// and returns the computed output amount. A zero trade is
    /// rejected; an output below `min_amount_out` fails the inclusive
    /// slippage check; an incoming reserve that would leave the 64-bit
    /// domain fails the overflow check. On any failure the pool is
    /// unchanged.
    pub fn swap(&mut self, amount_in: u64, min_amount_out: u64, is_token_a: bool) -> (r: Result<
        u64,
        ErrorCode,
    >)
        ensures
            (match r {
                Ok(amount_out) => spec_swap(*old(self), amount_in, min_amount_out, is_token_a)
                    == Ok::<(Pool, u64), ErrorCode>((*final(self), amount_out)),
                Err(e) => spec_swap(*old(self), amount_in, min_amount_out, is_token_a)
                    == Err::<(Pool, u64), ErrorCode>(e),
            }),
            r is Err ==> *final(self) == *old(self),
    {
        if amount_in == 0 {
            return Err(ErrorCode::InvalidArgument);
        }
        let reserve_in: u64 = if is_token_a {
            self.reserve_a
        } else {
            self.reserve_b
        };
        let reserve_out: u64 = if is_token_a {
            self.reserve_b
        } else {
            self.reserve_a
        };
        proof {
            crate::math::lemma_u64_mul_fits(reserve_out, amount_in);
            crate::laws::lemma_swap_output_within_reserve(reserve_in, reserve_out, amount_in);
        }
        let numerator: u128 = reserve_out as u128 * amount_in as u128;
        let denominator: u128 = reserve_in as u128 + amount_in as u128;
        let amount_out: u64 = (numerator / denominator) as u64;
        if amount_out < min_amount_out {
            return Err(ErrorCode::SlippageExceeded);
        }
        if denominator > u64::MAX as u128 {
            return Err(ErrorCode::ArithmeticOverflow);
        }
        if amount_out > reserve_out {
            return Err(ErrorCode::InsufficientReserve);
        }
        if is_token_a {
            self.reserve_a = self.reserve_a + amount_in;
            self.reserve_b = self.reserve_b - amount_out;
        } else {
            self.reserve_b = self.reserve_b + amount_in;
            self.reserve_a = self.reserve_a - amount_out;
        }
        Ok(amount_out)
    }

    /// Redeems `claims` liquidity units for a proportional,
    /// floor-divided share of each reserve and burns the units,
    /// returning the pair of withdrawn amounts (paying them out is the
    /// host's responsibility). Redeeming from an empty supply is
    /// rejected rather than divided by; redeeming more units than are
    /// outstanding fails. On any failure the pool is unchanged.
    pub fn remove_liquidity(&mut self, claims: u64) -> (r: Result<(u64, u64), ErrorCode>)
        ensures
            (match r {
                Ok(withdrawn) => spec_remove_liquidity(*old(self), claims)
                    == Ok::<(Pool, (u64, u64)), ErrorCode>((*final(self), withdrawn)),
                Err(e) => spec_remove_liquidity(*old(self), claims)
                    == Err::<(Pool, (u64, u64)), ErrorCode>(e),
            }),
            r is Err ==> *final(self) == *old(self),
    {
        if self.total_claim_supply == 0 {
            return Err(ErrorCode::DivisionByZero);
        }
        if claims > self.total_claim_supply {
            return Err(ErrorCode::InsufficientClaims);
        }
        proof {
            crate::math::lemma_u64_mul_fits(claims, self.reserve_a);
            crate::math::lemma_u64_mul_fits(claims, self.reserve_b);
            crate::math::lemma_withdraw_within_reserve(claims, self.reserve_a, self.total_claim_supply);
            crate::math::lemma_withdraw_within_reserve(claims, self.reserve_b, self.total_claim_supply);
        }
        let supply: u128 = self.total_claim_supply as u128;
        let withdraw_a: u64 = (claims as u128 * self.reserve_a as u128 / supply) as u64;
        let withdraw_b: u64 = (claims as u128 * self.reserve_b as u128 / supply) as u64;
        if withdraw_a > self.reserve_a || withdraw_b > self.reserve_b {
            return Err(ErrorCode::InsufficientReserve);
        }
        self.reserve_a = self.reserve_a - withdraw_a;
        self.reserve_b = self.reserve_b - withdraw_b;
        self.total_claim_supply = self.total_claim_supply - claims;
        Ok((withdraw_a, withdraw_b))
    }
}

} // verus!
