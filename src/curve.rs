//! Pricing of the duel's bonding curve, in integer arithmetic.
//!
//! Buying spends `r` reserve units for `floor(sqrt(r) * 10^6)` tokens; selling
//! `t` tokens returns `floor((t / 10^6)^2 * 0.99)` reserve units. Both are
//! computed exactly on integers: `floor(sqrt(r) * 10^6) == isqrt(r * 10^12)` and
//! `floor((t / 10^6)^2 * 0.99) == floor(t^2 * 99 / 10^14)`.
use vstd::prelude::*;
use vstd::arithmetic::div_mod::lemma_fundamental_div_mod_converse;

use crate::error::DuelError;

verus! {

/// The square of the token units paid per unit of `sqrt(reserve)`, 10^6.
pub const TOKEN_SCALE_SQ: u128 = 1_000_000_000_000;

/// Denominator of the sell price: `TOKEN_SCALE_SQ * 100` (the fee is 1 in 100).
pub const SELL_DENOMINATOR: u128 = 100_000_000_000_000;

/// Share of the sell price paid out, in hundredths.
pub const SELL_NUMERATOR: u128 = 99;

/// `t` is the integer square root of `n`: the largest integer whose square is at most `n`.
pub open spec fn is_isqrt(n: int, t: int) -> bool {
    &&& 0 <= t
    &&& t * t <= n
    &&& n < (t + 1) * (t + 1)
}

/// Tokens handed out for `reserve_amount`: `floor(sqrt(reserve_amount) * 10^6)`,
/// i.e. the integer square root of `reserve_amount * 10^12`.
pub open spec fn tokens_for_reserve(reserve_amount: int) -> int
    recommends
        0 <= reserve_amount,
{
    choose|t: int| #[trigger] is_isqrt(reserve_amount * TOKEN_SCALE_SQ, t)
}

/// Reserve paid out for `token_amount`: `floor((token_amount / 10^6)^2 * 0.99)`.
pub open spec fn reserve_for_tokens(token_amount: int) -> int {
    token_amount * token_amount * SELL_NUMERATOR / SELL_DENOMINATOR as int
}

proof fn lemma_isqrt_unique(n: int, a: int, b: int)
    requires
        is_isqrt(n, a),
        is_isqrt(n, b),
    ensures
        a == b,
{
    if a < b {
        assert(a + 1 <= b);
        assert((a + 1) * (a + 1) <= b * b) by (nonlinear_arith)
            requires 0 <= a, a + 1 <= b;
    } else if b < a {
        assert((b + 1) * (b + 1) <= a * a) by (nonlinear_arith)
            requires 0 <= b, b + 1 <= a;
    }
}

/// Every non-negative integer has an integer square root.
proof fn lemma_isqrt_exists(n: int)
    requires
        0 <= n,
    ensures
        exists|t: int| #[trigger] is_isqrt(n, t),
    decreases n,
{
    if n == 0 {
        assert(is_isqrt(0, 0));
    } else {
        lemma_isqrt_exists(n - 1);
        let t = choose|t: int| #[trigger] is_isqrt(n - 1, t);
        if (t + 1) * (t + 1) <= n {
            assert(n < (t + 2) * (t + 2)) by (nonlinear_arith)
                requires n - 1 < (t + 1) * (t + 1), 0 <= t;
            assert(is_isqrt(n, t + 1));
        } else {
            assert(is_isqrt(n, t));
        }
    }
}

/// `tokens_for_reserve` is the integer square root of `r * 10^12`.
pub proof fn lemma_tokens_for_reserve_is_root(r: int)
    requires
        0 <= r,
    ensures
        is_isqrt(r * TOKEN_SCALE_SQ, tokens_for_reserve(r)),
{
    assert(0 <= r * TOKEN_SCALE_SQ) by (nonlinear_arith)
        requires 0 <= r;
    lemma_isqrt_exists(r * TOKEN_SCALE_SQ);
}

/// Any integer square root is the one `tokens_for_reserve` names.
pub proof fn lemma_tokens_for_reserve(r: int, t: int)
    requires
        is_isqrt(r * TOKEN_SCALE_SQ, t),
    ensures
        tokens_for_reserve(r) == t,
{
    let c = tokens_for_reserve(r);
    assert(is_isqrt(r * TOKEN_SCALE_SQ, c));
    lemma_isqrt_unique(r * TOKEN_SCALE_SQ, c, t);
}

/// Integer square root of `n` by bisection.
fn isqrt(n: u128) -> (t: u64)
    requires
        n < 0x1000_0000_0000_0000_0000_0000_0000_0000,
    ensures
        is_isqrt(n as int, t as int),
{
    let mut lo: u128 = 0;
    let mut hi: u128 = 0x4000_0000_0000_0000;
    assert(n < hi * hi) by (nonlinear_arith)
        requires hi == 0x4000_0000_0000_0000, n < 0x1000_0000_0000_0000_0000_0000_0000_0000;
    while lo + 1 < hi
        invariant
            lo < hi <= 0x4000_0000_0000_0000,
            lo * lo <= n,
            n < hi * hi,
        decreases hi - lo,
    {
        let mid: u128 = lo + (hi - lo) / 2;
        assert(mid * mid < 0x1000_0000_0000_0000_0000_0000_0000_0000) by (nonlinear_arith)
            requires mid < 0x4000_0000_0000_0000;
        if mid * mid <= n {
            lo = mid;
        } else {
            hi = mid;
        }
    }
    lo as u64
}

/// The tokens that any `u64` purchase yields stay below `2^52`.
pub proof fn lemma_tokens_for_reserve_bound(r: u64)
    ensures
        0 <= tokens_for_reserve(r as int) < 0x10_0000_0000_0000,
{
    let n = r as int * TOKEN_SCALE_SQ;
    assert(0 <= n < 0x100_0000_0000_0000_0000_0000_0000) by (nonlinear_arith)
        requires n == r as int * 1_000_000_000_000, 0 <= r < 0x1_0000_0000_0000_0000;
    let t = tokens_for_reserve(r as int);
    lemma_tokens_for_reserve_is_root(r as int);
    if t >= 0x10_0000_0000_0000 {
        assert(t * t >= 0x100_0000_0000_0000_0000_0000_0000) by (nonlinear_arith)
            requires t >= 0x10_0000_0000_0000;
    }
}

/// Tokens bought with `sol_amount` reserve units: `floor(sqrt(sol_amount) * 10^6)`.
///
/// The price depends on the amount spent in this call alone: the side's raised
/// reserve is taken and left unread.
pub fn calculate_buy_tokens(sol_amount: u64, current_sol_raised: u64) -> (tokens: u64)
    ensures
        tokens as int == tokens_for_reserve(sol_amount as int),
{
    let _ = current_sol_raised;
    let n: u128 = sol_amount as u128 * TOKEN_SCALE_SQ;
    assert(n < 0x1000_0000_0000_0000_0000_0000_0000_0000) by (nonlinear_arith)
        requires n == sol_amount as int * 1_000_000_000_000, sol_amount < 0x1_0000_0000_0000_0000;
    let t = isqrt(n);
    proof {
        lemma_tokens_for_reserve(sol_amount as int, t as int);
    }
    t
}

/// Reserve units paid for `token_amount` tokens: `floor((token_amount / 10^6)^2 * 0.99)`.
///
/// Fails with `MathOverflow` where that amount does not fit in `u64`. As for
/// buying, the side's raised reserve does not enter the price.
pub fn calculate_sell_sol(token_amount: u64, current_sol_raised: u64) -> (r: Result<u64, DuelError>)
    ensures
        reserve_for_tokens(token_amount as int) <= u64::MAX ==> r == Ok::<u64, DuelError>(
            reserve_for_tokens(token_amount as int) as u64,
        ),
        reserve_for_tokens(token_amount as int) > u64::MAX ==> r == Err::<u64, DuelError>(
            DuelError::MathOverflow,
        ),
{
    let _ = current_sol_raised;
    let t = token_amount as u128;
    assert(t * t < 0x1_0000_0000_0000_0000_0000_0000_0000_0000) by (nonlinear_arith)
        requires t < 0x1_0000_0000_0000_0000;
    let sq: u128 = t * t;
    let q: u128 = sq / SELL_DENOMINATOR;
    let rem: u128 = sq % SELL_DENOMINATOR;
    let low: u128 = rem * SELL_NUMERATOR / SELL_DENOMINATOR;
    proof {
        let d = SELL_DENOMINATOR as int;
        let s = (rem * SELL_NUMERATOR) as int / d;
        let m = (rem * SELL_NUMERATOR) as int % d;
        lemma_fundamental_div_mod_converse(sq as int, d, q as int, rem as int);
        assert(sq as int == q * d + rem);
        assert(rem * SELL_NUMERATOR == s * d + m && 0 <= m < d);
        assert(sq * SELL_NUMERATOR == (q * SELL_NUMERATOR + s) * d + m) by (nonlinear_arith)
            requires sq as int == q * d + rem, rem * 99 == s * d + m, SELL_NUMERATOR == 99;
        lemma_fundamental_div_mod_converse(sq * SELL_NUMERATOR, d, q * SELL_NUMERATOR + s, m);
        assert(q <= sq);
    }
    if q > (u64::MAX as u128) / SELL_NUMERATOR {
        assert(reserve_for_tokens(token_amount as int) > u64::MAX) by (nonlinear_arith)
            requires
                reserve_for_tokens(token_amount as int) >= q * 99,
                q as int > (u64::MAX as int) / 99;
        return Err(DuelError::MathOverflow);
    }
    let total: u128 = q * SELL_NUMERATOR + low;
    if total > u64::MAX as u128 {
        Err(DuelError::MathOverflow)
    } else {
        Ok(total as u64)
    }
}

/// Selling the tokens that a purchase yielded returns no more than was spent.
pub proof fn lemma_round_trip_never_gains(reserve_amount: u64)
    ensures
        reserve_for_tokens(tokens_for_reserve(reserve_amount as int)) <= reserve_amount,
{
    let r = reserve_amount as int;
    let t = tokens_for_reserve(r);
    lemma_tokens_for_reserve_is_root(r);
    assert(t * t * 99 <= r * 100_000_000_000_000) by (nonlinear_arith)
        requires t * t <= r * 1_000_000_000_000, 0 <= r;
    assert(t * t * 99 / 100_000_000_000_000 <= r) by (nonlinear_arith)
        requires t * t * 99 <= r * 100_000_000_000_000, 0 <= t * t * 99;
}

} // verus!
