//! Buying and selling a side's tokens against the reserve vault.
//!
//! Each operation reads the accounts it touches from a context, checks every
//! condition before it changes anything, and then applies all of its effects:
//! either the whole trade happens or the context is left as it was.
use vstd::prelude::*;

use crate::curve::{calculate_buy_tokens, calculate_sell_sol, tokens_for_reserve, reserve_for_tokens, lemma_tokens_for_reserve_bound};
use crate::duel::{DuelAccount, Key, TokenSide, TradeEvent};
use crate::error::DuelError;

verus! {

/// The accounts a purchase touches.
#[derive(Debug)]
pub struct BuyTokens {
    /// Address of the duel record.
    pub duel: Key,
    pub duel_account: DuelAccount,
    /// Tokens outstanding on side A's mint.
    pub token_a_mint_supply: u64,
    /// Tokens outstanding on side B's mint.
    pub token_b_mint_supply: u64,
    /// Reserve held by the vault.
    pub vault_lamports: u64,
    pub buyer: Key,
    /// Reserve held by the buyer.
    pub buyer_lamports: u64,
    /// The buyer's holdings in the token account that receives the purchase.
    pub buyer_token_amount: u64,
}

/// The accounts a sale touches.
#[derive(Debug)]
pub struct SellTokens {
    /// Address of the duel record.
    pub duel: Key,
    pub duel_account: DuelAccount,
    /// Tokens outstanding on side A's mint.
    pub token_a_mint_supply: u64,
    /// Tokens outstanding on side B's mint.
    pub token_b_mint_supply: u64,
    /// Reserve held by the vault.
    pub vault_lamports: u64,
    pub seller: Key,
    /// Reserve held by the seller.
    pub seller_lamports: u64,
    /// The seller's holdings in the token account that is burnt from.
    pub seller_token_amount: u64,
}

/// Outstanding tokens on the mint of `side`, given both mints' supplies.
pub open spec fn mint_supply(a: u64, b: u64, side: TokenSide) -> u64 {
    match side {
        TokenSide::TokenA => a,
        TokenSide::TokenB => b,
    }
}

/// `d` with `side`'s raised reserve set to `raised` and its supply to `supply`.
pub open spec fn with_side(d: DuelAccount, side: TokenSide, raised: u64, supply: u64) -> DuelAccount {
    match side {
        TokenSide::TokenA => DuelAccount { token_a_sol_raised: raised, token_a_supply: supply, ..d },
        TokenSide::TokenB => DuelAccount { token_b_sol_raised: raised, token_b_supply: supply, ..d },
    }
}

/// The record after `side` is bought with `sol_amount` for `tokens` at time
/// `now`: the side's counters grow, and the side wins if it reached the target.
pub open spec fn duel_after_buy(
    d: DuelAccount,
    side: TokenSide,
    sol_amount: u64,
    tokens: u64,
    now: i64,
) -> DuelAccount {
    let raised = (d.raised(side) + sol_amount) as u64;
    let e = with_side(d, side, raised, (d.supply(side) + tokens) as u64);
    if raised >= d.target_sol {
        DuelAccount { winner: Some(side), is_active: false, finished_at: Some(now), ..e }
    } else {
        e
    }
}

/// Why a purchase of `side` with `sol_amount` is refused, checked in order, if it is.
pub open spec fn buy_error(c: BuyTokens, sol_amount: u64, side: TokenSide, min_tokens_out: u64) -> Option<DuelError> {
    let d = c.duel_account;
    let t = tokens_for_reserve(sol_amount as int);
    if d.winner.is_some() {
        Some(DuelError::DuelAlreadyWon)
    } else if !d.is_active {
        Some(DuelError::DuelInactive)
    } else if t < min_tokens_out {
        Some(DuelError::SlippageExceeded)
    } else if c.buyer_lamports < sol_amount {
        Some(DuelError::InsufficientFunds)
    } else if c.vault_lamports + sol_amount > u64::MAX
        || mint_supply(c.token_a_mint_supply, c.token_b_mint_supply, side) + t > u64::MAX
        || c.buyer_token_amount + t > u64::MAX
        || d.raised(side) + sol_amount > u64::MAX
        || d.supply(side) + t > u64::MAX {
        Some(DuelError::MathOverflow)
    } else {
        None
    }
}

/// The accounts after a purchase of `side` with `sol_amount` at time `now`:
/// the reserve moves from the buyer to the vault, and the tokens are minted to
/// the buyer and counted on the record.
pub open spec fn after_buy(c: BuyTokens, sol_amount: u64, side: TokenSide, now: i64) -> BuyTokens {
    let t = tokens_for_reserve(sol_amount as int) as u64;
    BuyTokens {
        duel_account: duel_after_buy(c.duel_account, side, sol_amount, t, now),
        token_a_mint_supply: if side == TokenSide::TokenA { (c.token_a_mint_supply + t) as u64 } else { c.token_a_mint_supply },
        token_b_mint_supply: if side == TokenSide::TokenB { (c.token_b_mint_supply + t) as u64 } else { c.token_b_mint_supply },
        vault_lamports: (c.vault_lamports + sol_amount) as u64,
        buyer_lamports: (c.buyer_lamports - sol_amount) as u64,
        buyer_token_amount: (c.buyer_token_amount + t) as u64,
        ..c
    }
}

/// Buys `side`'s tokens with `sol_amount` reserve units at time `now`.
///
/// The buyer gets `floor(sqrt(sol_amount) * 10^6)` tokens, refused with
/// `SlippageExceeded` below `min_tokens_out`. The first purchase that brings a
/// side's raised reserve to the target makes it the winner and closes the duel.
/// A refusal, for the reason `buy_error` gives, changes nothing.
pub fn buy_tokens(
    ctx: &mut BuyTokens,
    sol_amount: u64,
    token_side: TokenSide,
    min_tokens_out: u64,
    now: i64,
) -> (r: Result<TradeEvent, DuelError>)
    ensures
        buy_error(*old(ctx), sol_amount, token_side, min_tokens_out) matches Some(e) ==> r
            == Err::<TradeEvent, DuelError>(e) && *final(ctx) == *old(ctx),
        buy_error(*old(ctx), sol_amount, token_side, min_tokens_out) is None ==> *final(ctx)
            == after_buy(*old(ctx), sol_amount, token_side, now) && r == Ok::<TradeEvent, DuelError>(
            TradeEvent {
                duel: old(ctx).duel,
                buyer: old(ctx).buyer,
                token_side,
                sol_amount,
                tokens_amount: tokens_for_reserve(sol_amount as int) as u64,
                timestamp: now,
            },
        ),
        old(ctx).duel_account.wf() ==> final(ctx).duel_account.wf(),
{
    if ctx.duel_account.winner.is_some() {
        return Err(DuelError::DuelAlreadyWon);
    }
    if !ctx.duel_account.is_active {
        return Err(DuelError::DuelInactive);
    }
    let tokens_out = calculate_buy_tokens(sol_amount, ctx.duel_account.sol_raised(token_side));
    if tokens_out < min_tokens_out {
        return Err(DuelError::SlippageExceeded);
    }
    if ctx.buyer_lamports < sol_amount {
        return Err(DuelError::InsufficientFunds);
    }
    let mint = match token_side {
        TokenSide::TokenA => ctx.token_a_mint_supply,
        TokenSide::TokenB => ctx.token_b_mint_supply,
    };
    let raised = ctx.duel_account.sol_raised(token_side);
    let supply = ctx.duel_account.supply_of(token_side);
    if ctx.vault_lamports > u64::MAX - sol_amount || mint > u64::MAX - tokens_out
        || ctx.buyer_token_amount > u64::MAX - tokens_out || raised > u64::MAX - sol_amount
        || supply > u64::MAX - tokens_out {
        return Err(DuelError::MathOverflow);
    }
    // every check has passed: apply the trade
    ctx.buyer_lamports = ctx.buyer_lamports - sol_amount;
    ctx.vault_lamports = ctx.vault_lamports + sol_amount;
    ctx.buyer_token_amount = ctx.buyer_token_amount + tokens_out;
    let new_raised = raised + sol_amount;
    match token_side {
        TokenSide::TokenA => {
            ctx.token_a_mint_supply = mint + tokens_out;
            ctx.duel_account.token_a_sol_raised = new_raised;
            ctx.duel_account.token_a_supply = supply + tokens_out;
        },
        TokenSide::TokenB => {
            ctx.token_b_mint_supply = mint + tokens_out;
            ctx.duel_account.token_b_sol_raised = new_raised;
            ctx.duel_account.token_b_supply = supply + tokens_out;
        },
    }
    if new_raised >= ctx.duel_account.target_sol {
        ctx.duel_account.winner = Some(token_side);
        ctx.duel_account.is_active = false;
        ctx.duel_account.finished_at = Some(now);
    }
    Ok(
        TradeEvent {
            duel: ctx.duel,
            buyer: ctx.buyer,
            token_side,
            sol_amount,
            tokens_amount: tokens_out,
            timestamp: now,
        },
    )
}

/// Why a sale of `token_amount` of `side`'s tokens is refused, checked in order, if it is.
pub open spec fn sell_error(c: SellTokens, token_amount: u64, side: TokenSide, min_sol_out: u64) -> Option<DuelError> {
    let d = c.duel_account;
    let out = reserve_for_tokens(token_amount as int);
    if d.winner.is_some() {
        Some(DuelError::DuelAlreadyWon)
    } else if !d.is_active {
        Some(DuelError::DuelInactive)
    } else if out > u64::MAX {
        Some(DuelError::MathOverflow)
    } else if out < min_sol_out {
        Some(DuelError::SlippageExceeded)
    } else if c.seller_token_amount < token_amount
        || mint_supply(c.token_a_mint_supply, c.token_b_mint_supply, side) < token_amount {
        Some(DuelError::InsufficientTokens)
    } else if c.vault_lamports < out {
        Some(DuelError::InsufficientVaultBalance)
    } else if c.seller_lamports + out > u64::MAX {
        Some(DuelError::MathOverflow)
    } else if d.raised(side) < out || d.supply(side) < token_amount {
        Some(DuelError::CounterUnderflow)
    } else {
        None
    }
}

/// The accounts after a sale of `token_amount` of `side`'s tokens: the tokens
/// are burnt from the seller and uncounted on the record, and their price moves
/// from the vault to the seller.
pub open spec fn after_sell(c: SellTokens, token_amount: u64, side: TokenSide) -> SellTokens {
    let out = reserve_for_tokens(token_amount as int) as u64;
    let d = c.duel_account;
    SellTokens {
        duel_account: with_side(d, side, (d.raised(side) - out) as u64, (d.supply(side) - token_amount) as u64),
        token_a_mint_supply: if side == TokenSide::TokenA { (c.token_a_mint_supply - token_amount) as u64 } else { c.token_a_mint_supply },
        token_b_mint_supply: if side == TokenSide::TokenB { (c.token_b_mint_supply - token_amount) as u64 } else { c.token_b_mint_supply },
        vault_lamports: (c.vault_lamports - out) as u64,
        seller_lamports: (c.seller_lamports + out) as u64,
        seller_token_amount: (c.seller_token_amount - token_amount) as u64,
        ..c
    }
}

/// Sells `token_amount` of `side`'s tokens back to the curve at time `now`.
///
/// The seller gets `floor((token_amount / 10^6)^2 * 0.99)` reserve units from
/// the vault, refused with `SlippageExceeded` below `min_sol_out`. The vault,
/// the seller's holdings and the side's counters never go below zero: a sale
/// that would take one there is refused, for the reason `sell_error` gives, and
/// changes nothing.
pub fn sell_tokens(
    ctx: &mut SellTokens,
    token_amount: u64,
    token_side: TokenSide,
    min_sol_out: u64,
    now: i64,
) -> (r: Result<TradeEvent, DuelError>)
    ensures
        sell_error(*old(ctx), token_amount, token_side, min_sol_out) matches Some(e) ==> r
            == Err::<TradeEvent, DuelError>(e) && *final(ctx) == *old(ctx),
        sell_error(*old(ctx), token_amount, token_side, min_sol_out) is None ==> *final(ctx)
            == after_sell(*old(ctx), token_amount, token_side) && r == Ok::<TradeEvent, DuelError>(
            TradeEvent {
                duel: old(ctx).duel,
                buyer: old(ctx).seller,
                token_side,
                sol_amount: reserve_for_tokens(token_amount as int) as u64,
                tokens_amount: token_amount,
                timestamp: now,
            },
        ),
        old(ctx).duel_account.wf() ==> final(ctx).duel_account.wf(),
{
    if ctx.duel_account.winner.is_some() {
        return Err(DuelError::DuelAlreadyWon);
    }
    if !ctx.duel_account.is_active {
        return Err(DuelError::DuelInactive);
    }
    let sol_out = match calculate_sell_sol(token_amount, ctx.duel_account.sol_raised(token_side)) {
        Ok(v) => v,
        Err(e) => {
            return Err(e);
        },
    };
    if sol_out < min_sol_out {
        return Err(DuelError::SlippageExceeded);
    }
    let mint = match token_side {
        TokenSide::TokenA => ctx.token_a_mint_supply,
        TokenSide::TokenB => ctx.token_b_mint_supply,
    };
    if ctx.seller_token_amount < token_amount || mint < token_amount {
        return Err(DuelError::InsufficientTokens);
    }
    if ctx.vault_lamports < sol_out {
        return Err(DuelError::InsufficientVaultBalance);
    }
    if ctx.seller_lamports > u64::MAX - sol_out {
        return Err(DuelError::MathOverflow);
    }
    let raised = ctx.duel_account.sol_raised(token_side);
    let supply = ctx.duel_account.supply_of(token_side);
    if raised < sol_out || supply < token_amount {
        return Err(DuelError::CounterUnderflow);
    }
    // every check has passed: apply the trade
    ctx.seller_token_amount = ctx.seller_token_amount - token_amount;
    ctx.vault_lamports = ctx.vault_lamports - sol_out;
    ctx.seller_lamports = ctx.seller_lamports + sol_out;
    match token_side {
        TokenSide::TokenA => {
            ctx.token_a_mint_supply = mint - token_amount;
            ctx.duel_account.token_a_sol_raised = raised - sol_out;
            ctx.duel_account.token_a_supply = supply - token_amount;
        },
        TokenSide::TokenB => {
            ctx.token_b_mint_supply = mint - token_amount;
            ctx.duel_account.token_b_sol_raised = raised - sol_out;
            ctx.duel_account.token_b_supply = supply - token_amount;
        },
    }
    Ok(
        TradeEvent {
            duel: ctx.duel,
            buyer: ctx.seller,
            token_side,
            sol_amount: sol_out,
            tokens_amount: token_amount,
            timestamp: now,
        },
    )
}

/// The accounts after the purchases `buys` of `side`, in order, each a reserve
/// amount and the time it was made.
pub open spec fn after_buys(c: BuyTokens, side: TokenSide, buys: Seq<(u64, i64)>) -> BuyTokens
    decreases buys.len(),
{
    if buys.len() == 0 {
        c
    } else {
        let last = buys.last();
        after_buy(after_buys(c, side, buys.drop_last()), last.0, side, last.1)
    }
}

/// The tokens that the purchases `buys` yield together.
pub open spec fn total_tokens_out(buys: Seq<(u64, i64)>) -> int
    decreases buys.len(),
{
    if buys.len() == 0 {
        0
    } else {
        total_tokens_out(buys.drop_last()) + tokens_for_reserve(buys.last().0 as int)
    }
}

proof fn lemma_total_tokens_out_nonneg(buys: Seq<(u64, i64)>)
    ensures
        0 <= total_tokens_out(buys),
    decreases buys.len(),
{
    if buys.len() > 0 {
        lemma_total_tokens_out_nonneg(buys.drop_last());
        lemma_tokens_for_reserve_bound(buys.last().0);
    }
}

/// After a run of purchases of one side, the record's supply of that side and
/// the supply on its mint have each grown by the sum of the tokens each
/// purchase yielded; so where they agreed before, they still agree.
pub proof fn lemma_supply_is_sum_of_buys(c: BuyTokens, side: TokenSide, buys: Seq<(u64, i64)>)
    requires
        c.duel_account.supply(side) + total_tokens_out(buys) <= u64::MAX,
        mint_supply(c.token_a_mint_supply, c.token_b_mint_supply, side) + total_tokens_out(buys)
            <= u64::MAX,
    ensures
        after_buys(c, side, buys).duel_account.supply(side) == c.duel_account.supply(side)
            + total_tokens_out(buys),
        mint_supply(
            after_buys(c, side, buys).token_a_mint_supply,
            after_buys(c, side, buys).token_b_mint_supply,
            side,
        ) == mint_supply(c.token_a_mint_supply, c.token_b_mint_supply, side) + total_tokens_out(
            buys,
        ),
    decreases buys.len(),
{
    if buys.len() > 0 {
        let last = buys.last();
        lemma_tokens_for_reserve_bound(last.0);
        lemma_total_tokens_out_nonneg(buys.drop_last());
        lemma_supply_is_sum_of_buys(c, side, buys.drop_last());
    }
}

/// A purchase of an open, well-formed duel makes `side` the winner exactly when
/// it brings the side's raised reserve to the target, and otherwise leaves the
/// duel open with no winner.
pub proof fn lemma_winner_iff_target_reached(
    b: BuyTokens,
    sol_amount: u64,
    side: TokenSide,
    min_tokens_out: u64,
    now: i64,
)
    requires
        b.duel_account.wf(),
        buy_error(b, sol_amount, side, min_tokens_out) is None,
    ensures
        ({
            let d = after_buy(b, sol_amount, side, now).duel_account;
            &&& d.winner is Some <==> d.raised(side) >= b.duel_account.target_sol
            &&& d.winner is Some ==> d.winner == Some(side) && !d.is_active
            &&& d.winner is None ==> d.is_active
        }),
{
}

/// A sale never sets or clears the winner.
pub proof fn lemma_sale_keeps_winner(s: SellTokens, token_amount: u64, side: TokenSide)
    ensures
        after_sell(s, token_amount, side).duel_account.winner == s.duel_account.winner,
        after_sell(s, token_amount, side).duel_account.is_active == s.duel_account.is_active,
{
}

/// Once a side has won, every purchase and every sale is refused as made on a
/// won duel, and so leaves the accounts unchanged.
pub proof fn lemma_won_duel_is_frozen(
    b: BuyTokens,
    sol_amount: u64,
    side: TokenSide,
    min_tokens_out: u64,
    s: SellTokens,
    token_amount: u64,
    sell_side: TokenSide,
    min_sol_out: u64,
)
    requires
        b.duel_account.winner is Some,
        s.duel_account.winner is Some,
    ensures
        buy_error(b, sol_amount, side, min_tokens_out) == Some(DuelError::DuelAlreadyWon),
        sell_error(s, token_amount, sell_side, min_sol_out) == Some(DuelError::DuelAlreadyWon),
{
}

/// A sale whose price exceeds the vault's balance is refused; a sale that goes
/// through leaves the vault with its balance less the price, which is not negative.
pub proof fn lemma_sale_never_overdraws_vault(
    s: SellTokens,
    token_amount: u64,
    side: TokenSide,
    min_sol_out: u64,
)
    ensures
        reserve_for_tokens(token_amount as int) > s.vault_lamports ==> sell_error(
            s,
            token_amount,
            side,
            min_sol_out,
        ) is Some,
        sell_error(s, token_amount, side, min_sol_out) is None ==> after_sell(
            s,
            token_amount,
            side,
        ).vault_lamports == s.vault_lamports - reserve_for_tokens(token_amount as int),
{
}

} // verus!
