//! A two-sided bonding-curve market: two tokens are sold against one reserve
//! until a side's raised reserve reaches the target and wins, after which the
//! reserve is handed over to a liquidity venue.
//!
//! - `curve`: the integer pricing of purchases and sales;
//! - `duel`: the duel record, its invariant and its creation;
//! - `trade`: purchases and sales, with the laws that they keep;
//! - `migrate`: the hand-over of a won duel's reserve;
//! - `error`: why an operation is refused.

pub mod curve;
pub mod duel;
pub mod error;
pub mod migrate;
pub mod trade;
