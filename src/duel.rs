//! The duel record, its well-formedness, and its creation.
use vstd::prelude::*;
use vstd::string::StrSliceExecFns;

use crate::error::DuelError;

verus! {

/// A 32-byte account address on the host ledger.
pub type Key = [u8; 32];

/// Reserve that a side must raise to win: 85,000,000,000 minor units.
pub const TARGET_SOL: u64 = 85_000_000_000;

/// Longest token name, in characters.
pub const MAX_NAME_LEN: usize = 32;

/// Longest token symbol, in characters.
pub const MAX_SYMBOL_LEN: usize = 10;

/// One of the two competing tokens.
#[derive(Clone, Copy, Debug, PartialEq, Eq, Structural)]
pub enum TokenSide {
    TokenA,
    TokenB,
}

/// The persistent record of one duel between two tokens.
#[derive(Clone, Debug)]
pub struct DuelAccount {
    pub token_a_mint: Key,
    pub token_b_mint: Key,
    pub vault: Key,
    pub founder_a: Key,
    pub founder_b: Key,
    /// Net reserve contributed to side A.
    pub token_a_sol_raised: u64,
    /// Net reserve contributed to side B.
    pub token_b_sol_raised: u64,
    /// Outstanding tokens of side A.
    pub token_a_supply: u64,
    /// Outstanding tokens of side B.
    pub token_b_supply: u64,
    pub winner: Option<TokenSide>,
    pub is_active: bool,
    pub created_at: i64,
    pub finished_at: Option<i64>,
    /// Reserve that a side must raise to win.
    pub target_sol: u64,
    pub token_a_name: String,
    pub token_a_symbol: String,
    pub token_b_name: String,
    pub token_b_symbol: String,
    /// Address-derivation seed of the record, kept for signing as mint authority.
    pub bump: u8,
}

/// What a trade is published as.
#[derive(Clone, Copy, Debug, PartialEq, Eq)]
pub struct TradeEvent {
    pub duel: Key,
    pub buyer: Key,
    pub token_side: TokenSide,
    pub sol_amount: u64,
    pub tokens_amount: u64,
    pub timestamp: i64,
}

impl DuelAccount {
    /// Reserve raised by `side`.
    pub open spec fn raised(self, side: TokenSide) -> u64 {
        match side {
            TokenSide::TokenA => self.token_a_sol_raised,
            TokenSide::TokenB => self.token_b_sol_raised,
        }
    }

    /// Outstanding tokens of `side`.
    pub open spec fn supply(self, side: TokenSide) -> u64 {
        match side {
            TokenSide::TokenA => self.token_a_supply,
            TokenSide::TokenB => self.token_b_supply,
        }
    }

    /// The record's invariant: it is open exactly while no side has won, it
    /// finished exactly when a side won, the winner reached the target, and the
    /// display metadata is within its bounds.
    pub open spec fn wf(self) -> bool {
        &&& self.is_active == self.winner.is_none()
        &&& self.finished_at.is_some() == self.winner.is_some()
        &&& (self.winner matches Some(s) ==> self.raised(s) >= self.target_sol)
        &&& self.token_a_name@.len() <= MAX_NAME_LEN
        &&& self.token_b_name@.len() <= MAX_NAME_LEN
        &&& self.token_a_symbol@.len() <= MAX_SYMBOL_LEN
        &&& self.token_b_symbol@.len() <= MAX_SYMBOL_LEN
    }

    /// Reserve raised by `side`.
    pub fn sol_raised(&self, side: TokenSide) -> (r: u64)
        ensures
            r == self.raised(side),
    {
        match side {
            TokenSide::TokenA => self.token_a_sol_raised,
            TokenSide::TokenB => self.token_b_sol_raised,
        }
    }

    /// Outstanding tokens of `side`.
    pub fn supply_of(&self, side: TokenSide) -> (r: u64)
        ensures
            r == self.supply(side),
    {
        match side {
            TokenSide::TokenA => self.token_a_supply,
            TokenSide::TokenB => self.token_b_supply,
        }
    }
}

/// The addresses that the host provisioned for a new duel.
#[derive(Clone, Copy, Debug)]
pub struct InitializeDuel {
    pub token_a_mint: Key,
    pub token_b_mint: Key,
    pub vault: Key,
    /// Address-derivation seed of the duel record.
    pub bump: u8,
}

/// The record that creation yields from `ctx` and the given metadata.
pub open spec fn initial_duel(
    ctx: InitializeDuel,
    token_a_name: String,
    token_a_symbol: String,
    token_b_name: String,
    token_b_symbol: String,
    founder_a: Key,
    founder_b: Key,
    now: i64,
) -> DuelAccount {
    DuelAccount {
        token_a_mint: ctx.token_a_mint,
        token_b_mint: ctx.token_b_mint,
        vault: ctx.vault,
        founder_a,
        founder_b,
        token_a_sol_raised: 0,
        token_b_sol_raised: 0,
        token_a_supply: 0,
        token_b_supply: 0,
        winner: None,
        is_active: true,
        created_at: now,
        finished_at: None,
        target_sol: TARGET_SOL,
        token_a_name,
        token_a_symbol,
        token_b_name,
        token_b_symbol,
        bump: ctx.bump,
    }
}

/// Creates the record of a new duel at time `now`: both sides at zero, open,
/// with no winner and the fixed target. Fails with `MetadataTooLong` exactly
/// when a name exceeds 32 characters or a symbol 10.
pub fn initialize_duel(
    ctx: &InitializeDuel,
    token_a_name: String,
    token_a_symbol: String,
    token_b_name: String,
    token_b_symbol: String,
    founder_a: Key,
    founder_b: Key,
    now: i64,
) -> (r: Result<DuelAccount, DuelError>)
    ensures
        (token_a_name@.len() <= MAX_NAME_LEN && token_b_name@.len() <= MAX_NAME_LEN
            && token_a_symbol@.len() <= MAX_SYMBOL_LEN && token_b_symbol@.len()
            <= MAX_SYMBOL_LEN) ==> r == Ok::<DuelAccount, DuelError>(
            initial_duel(
                *ctx,
                token_a_name,
                token_a_symbol,
                token_b_name,
                token_b_symbol,
                founder_a,
                founder_b,
                now,
            ),
        ),
        !(token_a_name@.len() <= MAX_NAME_LEN && token_b_name@.len() <= MAX_NAME_LEN
            && token_a_symbol@.len() <= MAX_SYMBOL_LEN && token_b_symbol@.len()
            <= MAX_SYMBOL_LEN) ==> r == Err::<DuelAccount, DuelError>(DuelError::MetadataTooLong),
        r matches Ok(d) ==> d.wf(),
{
    if token_a_name.as_str().unicode_len() > MAX_NAME_LEN || token_b_name.as_str().unicode_len()
        > MAX_NAME_LEN || token_a_symbol.as_str().unicode_len() > MAX_SYMBOL_LEN
        || token_b_symbol.as_str().unicode_len() > MAX_SYMBOL_LEN {
        return Err(DuelError::MetadataTooLong);
    }
    Ok(
        DuelAccount {
            token_a_mint: ctx.token_a_mint,
            token_b_mint: ctx.token_b_mint,
            vault: ctx.vault,
            founder_a,
            founder_b,
            token_a_sol_raised: 0,
            token_b_sol_raised: 0,
            token_a_supply: 0,
            token_b_supply: 0,
            winner: None,
            is_active: true,
            created_at: now,
            finished_at: None,
            target_sol: TARGET_SOL,
            token_a_name,
            token_a_symbol,
            token_b_name,
            token_b_symbol,
            bump: ctx.bump,
        },
    )
}

} // verus!
