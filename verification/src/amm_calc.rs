//! Constant-product quoting: translate between input and output amounts
//! under the invariant `sol_reserve * token_reserve = k`, and apply a
//! basis-point slippage tolerance to a quoted amount.
//!
//! All division is floor division; degenerate inputs (a zero reserve, a
//! zero amount, or a buy that would deplete the token reserve) yield the
//! sentinel `0` rather than an error, and callers branch on it.
use vstd::arithmetic::div_mod::{
    lemma_div_by_self, lemma_div_is_ordered, lemma_div_is_ordered_by_denominator,
    lemma_div_multiples_vanish, lemma_div_pos_is_pos, lemma_fundamental_div_mod,
    lemma_fundamental_div_mod_converse, lemma_mod_bound,
};
use vstd::arithmetic::mul::{
    lemma_mul_inequality, lemma_mul_nonnegative, lemma_mul_upper_bound,
};
use vstd::prelude::*;

verus! {

/// Number of basis points in one whole unit.
pub const BASIS_POINTS: u64 = 10_000;

/// Tokens received for `sol_in` lamports: the new token reserve under the
/// invariant is `floor(k / (sol_reserve + sol_in))`, and the buyer gets the
/// difference. Zero when any input is zero; and a quote that would take
/// the whole token reserve (the new reserve rounds to nothing) is invalid
/// and clamped to zero — the curve never fully depletes a reserve.
pub open spec fn spec_buy_token_out(sol_reserve: int, token_reserve: int, sol_in: int) -> int {
    if sol_in == 0 || sol_reserve == 0 || token_reserve == 0 {
        0
    } else if (sol_reserve * token_reserve) / (sol_reserve + sol_in) == 0 {
        0
    } else {
        token_reserve - (sol_reserve * token_reserve) / (sol_reserve + sol_in)
    }
}

/// Lamports needed to take `token_out` tokens out of the pool: the
/// ceiling of `sol_reserve * token_out / (token_reserve - token_out)`,
/// rounded against the trader so the pool is never under-paid. Zero when
/// any input is zero or the request would take the whole token reserve.
/// The executable function truncates this quotient to the `u64` range.
pub open spec fn spec_buy_sol_in(sol_reserve: int, token_reserve: int, token_out: int) -> int {
    if token_out == 0 || sol_reserve == 0 || token_reserve == 0 || token_out >= token_reserve {
        0
    } else {
        (sol_reserve * token_out + (token_reserve - token_out) - 1) / (token_reserve - token_out)
    }
}

/// Lamports received for selling `token_in` tokens into the pool. Zero when
/// any input is zero.
pub open spec fn spec_sell_sol_out(sol_reserve: int, token_reserve: int, token_in: int) -> int {
    if token_in == 0 || sol_reserve == 0 || token_reserve == 0 {
        0
    } else {
        (sol_reserve * token_in) / (token_reserve + token_in)
    }
}

/// Worst acceptable payment for a buyer: the quoted amount plus the
/// basis-point tolerance, rounded down.
pub open spec fn spec_apply_slippage_buy(amount: int, basis_points: int) -> int {
    amount + (amount * basis_points) / (BASIS_POINTS as int)
}

/// Worst acceptable proceeds for a seller: the quoted amount minus the
/// basis-point tolerance, rounded down.
pub open spec fn spec_apply_slippage_sell(amount: int, basis_points: int) -> int {
    amount - (amount * basis_points) / (BASIS_POINTS as int)
}

/// How many lamports must be paid to receive exactly `token_out` tokens.
///
/// The result is the ceiling quotient of `spec_buy_sol_in`, truncated to
/// the `u64` range; whenever that quotient fits in `u64` the result is
/// exact.
pub fn amm_buy_get_sol_in(sol_reserve: u64, token_reserve: u64, token_out: u64) -> (sol_in: u64)
    ensures
        sol_in == spec_buy_sol_in(sol_reserve as int, token_reserve as int, token_out as int) as u64,
        spec_buy_sol_in(sol_reserve as int, token_reserve as int, token_out as int) <= u64::MAX
            ==> sol_in == spec_buy_sol_in(sol_reserve as int, token_reserve as int, token_out as int),
{
    if token_out == 0 || sol_reserve == 0 || token_reserve == 0 || token_out >= token_reserve {
        return 0;
    }
    proof {
        lemma_mul_upper_bound(sol_reserve as int, u64::MAX as int, token_out as int, u64::MAX as int);
        lemma_mul_nonnegative(sol_reserve as int, token_out as int);
        lemma_div_pos_is_pos(
            (sol_reserve as int) * (token_out as int) + (token_reserve - token_out) - 1,
            (token_reserve - token_out) as int,
        );
    }
    let numerator: u128 = (sol_reserve as u128) * (token_out as u128);
    let denominator: u128 = (token_reserve as u128) - (token_out as u128);
    let sol_in: u128 = (numerator + (denominator - 1)) / denominator;
    #[verifier::truncate]
    (sol_in as u64)
}

/// How many tokens come out of the pool for paying `sol_in` lamports.
///
/// The result always fits in `u64` because it never exceeds the token
/// reserve; a quote that would take the whole reserve is clamped to the
/// zero sentinel, so a buy never fully depletes the pool.
pub fn amm_buy_get_token_out(sol_reserve: u64, token_reserve: u64, sol_in: u64) -> (token_out: u64)
    ensures
        token_out == spec_buy_token_out(sol_reserve as int, token_reserve as int, sol_in as int),
        token_reserve > 0 ==> token_out < token_reserve,
{
    if sol_in == 0 || sol_reserve == 0 || token_reserve == 0 {
        return 0;
    }
    proof {
        lemma_mul_upper_bound(sol_reserve as int, u64::MAX as int, token_reserve as int, u64::MAX as int);
    }
    let invariant_k: u128 = (sol_reserve as u128) * (token_reserve as u128);
    let new_sol_reserve: u128 = (sol_reserve as u128) + (sol_in as u128);
    let new_token_reserve: u128 = invariant_k / new_sol_reserve;
    if new_token_reserve == 0 {
        // The whole reserve would leave the pool: invalid, clamped.
        return 0;
    }
    proof {
        // The shrunken reserve never exceeds the old one ...
        lemma_div_is_ordered_by_denominator(invariant_k as int, sol_reserve as int, new_sol_reserve as int);
        // ... because k / sol_reserve is exactly token_reserve.
        lemma_div_multiples_vanish(token_reserve as int, sol_reserve as int);
    }
    let token_out: u128 = (token_reserve as u128) - new_token_reserve;
    token_out as u64
}

/// How many lamports come out of the pool for selling `token_in` tokens.
///
/// The result always fits in `u64` because it never reaches the sol
/// reserve: a sell cannot drain the pool either.
pub fn amm_sell_get_sol_out(sol_reserve: u64, token_reserve: u64, token_in: u64) -> (sol_out: u64)
    ensures
        sol_out == spec_sell_sol_out(sol_reserve as int, token_reserve as int, token_in as int),
        sol_out <= sol_reserve,
{
    if token_in == 0 || sol_reserve == 0 || token_reserve == 0 {
        return 0;
    }
    proof {
        lemma_mul_upper_bound(sol_reserve as int, u64::MAX as int, token_in as int, u64::MAX as int);
    }
    let numerator: u128 = (sol_reserve as u128) * (token_in as u128);
    let denominator: u128 = (token_reserve as u128) + (token_in as u128);
    let sol_out: u128 = numerator / denominator;
    proof {
        // numerator <= sol_reserve * denominator, so the quotient is at
        // most sol_reserve.
        lemma_mul_inequality(token_in as int, denominator as int, sol_reserve as int);
        lemma_div_is_ordered(numerator as int, (sol_reserve as int) * (denominator as int), denominator as int);
        lemma_div_multiples_vanish(sol_reserve as int, denominator as int);
    }
    sol_out as u64
}

/// The most a buyer will pay: `amount` plus the tolerated extra, rounded
/// down. The caller keeps the sum inside the `u64` range.
pub fn apply_slippage_buy(amount: u64, basis_points: u64) -> (r: u64)
    requires
        basis_points <= BASIS_POINTS,
        spec_apply_slippage_buy(amount as int, basis_points as int) <= u64::MAX,
    ensures
        r == spec_apply_slippage_buy(amount as int, basis_points as int),
        r >= amount,
{
    proof {
        lemma_mul_upper_bound(amount as int, u64::MAX as int, basis_points as int, BASIS_POINTS as int);
        lemma_mul_nonnegative(amount as int, basis_points as int);
        lemma_div_pos_is_pos((amount as int) * (basis_points as int), BASIS_POINTS as int);
    }
    let extra: u128 = (amount as u128) * (basis_points as u128) / (BASIS_POINTS as u128);
    amount + (extra as u64)
}

/// The least a seller will accept: `amount` minus the tolerated shortfall,
/// rounded down. Never exceeds `amount`, and never underflows because the
/// tolerance is at most the whole amount.
pub fn apply_slippage_sell(amount: u64, basis_points: u64) -> (r: u64)
    requires
        basis_points <= BASIS_POINTS,
    ensures
        r == spec_apply_slippage_sell(amount as int, basis_points as int),
        r <= amount,
{
    proof {
        lemma_mul_upper_bound(amount as int, u64::MAX as int, basis_points as int, BASIS_POINTS as int);
        lemma_mul_nonnegative(amount as int, basis_points as int);
        lemma_div_pos_is_pos((amount as int) * (basis_points as int), BASIS_POINTS as int);
        // amount * basis_points / BASIS_POINTS <= amount
        lemma_mul_inequality(basis_points as int, BASIS_POINTS as int, amount as int);
        lemma_mul_upper_bound(amount as int, amount as int, basis_points as int, BASIS_POINTS as int);
        lemma_div_is_ordered((amount as int) * (basis_points as int), (amount as int) * (BASIS_POINTS as int), BASIS_POINTS as int);
        lemma_div_multiples_vanish(amount as int, BASIS_POINTS as int);
    }
    let shortfall: u128 = (amount as u128) * (basis_points as u128) / (BASIS_POINTS as u128);
    amount - (shortfall as u64)
}

/// Zero tolerance is a no-op in both directions.
pub proof fn lemma_slippage_zero_is_identity(amount: u64)
    ensures
        spec_apply_slippage_buy(amount as int, 0) == amount,
        spec_apply_slippage_sell(amount as int, 0) == amount,
{
}

/// Slippage only ever moves the bound against the trader: the buy ceiling
/// is at least the quote and the sell floor is at most the quote, for every
/// tolerance.
pub proof fn lemma_slippage_bounds(amount: u64, basis_points: u64)
    ensures
        spec_apply_slippage_buy(amount as int, basis_points as int) >= amount,
        spec_apply_slippage_sell(amount as int, basis_points as int) <= amount,
{
    lemma_mul_nonnegative(amount as int, basis_points as int);
    lemma_div_pos_is_pos((amount as int) * (basis_points as int), BASIS_POINTS as int);
}

/// The quoting calculator is a pure function of the reserve snapshot and
/// the requested amount: two calls on identical inputs agree.
pub proof fn lemma_quoting_deterministic(sol_reserve: u64, token_reserve: u64, amount: u64, r1: u64, r2: u64)
    requires
        r1 == spec_buy_token_out(sol_reserve as int, token_reserve as int, amount as int),
        r2 == spec_buy_token_out(sol_reserve as int, token_reserve as int, amount as int),
    ensures
        r1 == r2,
{
}

/// The buy/inverse round trip, pinned exactly: on a pool deep relative to
/// the trade (`(sol_reserve + sol_in)^2 <= sol_reserve * token_reserve`),
/// re-deriving the price of the tokens a buy returned gives back the
/// original payment when the curve division was exact, and overshoots by
/// exactly one lamport otherwise — the ceiling of the inverse quote
/// rounds for the pool, never under it.
pub proof fn lemma_buy_roundtrip_exact(sol_reserve: u64, token_reserve: u64, sol_in: u64)
    requires
        sol_reserve > 0,
        token_reserve > 0,
        sol_in > 0,
        ((sol_reserve + sol_in) as int) * ((sol_reserve + sol_in) as int)
            <= (sol_reserve as int) * (token_reserve as int),
    ensures
        ({
            let q = sol_reserve as int;
            let b = token_reserve as int;
            let x = sol_in as int;
            let rederived = spec_buy_sol_in(q, b, spec_buy_token_out(q, b, x));
            if (q * b) % (q + x) == 0 {
                rederived == x
            } else {
                rederived == x + 1
            }
        }),
{
    let q = sol_reserve as int;
    let b = token_reserve as int;
    let x = sol_in as int;
    let d = q + x;
    let m = (q * b) / d;
    let r = (q * b) % d;
    lemma_fundamental_div_mod(q * b, d);
    lemma_mod_bound(q * b, d);
    // m >= d: the pool-depth requirement pushed through the division.
    lemma_div_is_ordered(d * d, q * b, d);
    lemma_div_multiples_vanish(d, d);
    // m < b, else d * m would reach d * b while staying at most q * b.
    assert(q * b < d * b) by (nonlinear_arith)
        requires q > 0, b > 0, x > 0, d == q + x;
    assert(m < b) by (nonlinear_arith)
        requires d * m < d * b, d > 0;
    let token_out = b - m;
    assert(spec_buy_token_out(q, b, x) == token_out);
    // The ceiling's numerator is q*(b - m) + m - 1 == m*x + r + m - 1.
    assert(q * (b - m) == m * x + r) by (nonlinear_arith)
        requires q * b == d * m + r, d == q + x;
    if r == 0 {
        lemma_fundamental_div_mod_converse(m * x + m - 1, m, x, m - 1);
    } else {
        assert(m * x + r + m - 1 == m * (x + 1) + (r - 1)) by (nonlinear_arith);
        lemma_fundamental_div_mod_converse(m * x + r + m - 1, m, x + 1, r - 1);
    }
}

/// Re-deriving the price of the tokens a buy returned never demands more
/// than the original payment when the curve division was exact
/// (`sol_reserve * token_reserve` divisible by `sol_reserve + sol_in`);
/// off exact division the ceiling of the inverse quote overshoots by one
/// lamport, so exactness is part of the law (see
/// `lemma_buy_roundtrip_exact` for the general bound).
pub proof fn lemma_buy_roundtrip_refunds_no_more(sol_reserve: u64, token_reserve: u64, sol_in: u64)
    requires
        sol_reserve > 0,
        token_reserve > 0,
        sol_in > 0,
        ((sol_reserve as int) * (token_reserve as int)) % ((sol_reserve + sol_in) as int) == 0,
        (sol_reserve as int) * (token_reserve as int) >= sol_reserve + sol_in,
    ensures
        spec_buy_sol_in(
            sol_reserve as int,
            token_reserve as int,
            spec_buy_token_out(sol_reserve as int, token_reserve as int, sol_in as int),
        ) <= sol_in,
{
    let q = sol_reserve as int;
    let b = token_reserve as int;
    let x = sol_in as int;
    let d = q + x;
    let m = (q * b) / d;
    lemma_fundamental_div_mod(q * b, d);
    // m >= 1: the invariant product covers at least one divisor's worth.
    lemma_div_is_ordered(d, q * b, d);
    lemma_div_by_self(d);
    // m < b, else d * m would reach d * b while staying at most q * b.
    assert(q * b < d * b) by (nonlinear_arith)
        requires q > 0, b > 0, x > 0, d == q + x;
    assert(m < b) by (nonlinear_arith)
        requires d * m < d * b, d > 0;
    let token_out = b - m;
    assert(spec_buy_token_out(q, b, x) == token_out);
    // Exact division: q*(b - m) == m*x, and the ceiling of m*x / m is x.
    assert(q * (b - m) == m * x) by (nonlinear_arith)
        requires q * b == d * m, d == q + x;
    lemma_fundamental_div_mod_converse(m * x + m - 1, m, x, m - 1);
}

} // verus!
