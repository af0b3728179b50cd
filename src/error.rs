//! The conditions under which a duel operation is refused.
use vstd::prelude::*;

verus! {

/// Why an operation on a duel was refused. A refused operation changes nothing.
#[derive(Clone, Copy, Debug, PartialEq, Eq, Structural)]
pub enum DuelError {
    /// The duel is not open for trading.
    DuelInactive,
    /// A side has already reached the target.
    DuelAlreadyWon,
    /// The computed output is worse than the caller's bound.
    SlippageExceeded,
    /// Migration was asked for while the duel is still open.
    DuelStillActive,
    /// Migration was asked for before any side won.
    NoWinner,
    /// The buyer holds less reserve currency than the purchase costs.
    InsufficientFunds,
    /// The seller holds fewer tokens than the sale burns, or the mint has fewer outstanding.
    InsufficientTokens,
    /// The vault holds less than the sale pays out.
    InsufficientVaultBalance,
    /// The sale would take a side's raised reserve or supply below zero.
    CounterUnderflow,
    /// A result or a balance would leave the range of `u64`.
    MathOverflow,
    /// A token name is longer than 32 characters or a symbol longer than 10.
    MetadataTooLong,
}

} // verus!
