//! Handing the reserve of a won duel over to the liquidity venue.
use vstd::prelude::*;

use crate::duel::DuelAccount;
use crate::error::DuelError;

verus! {

/// The accounts a migration touches.
#[derive(Debug)]
pub struct MigrateToRaydium {
    pub duel_account: DuelAccount,
    /// Reserve held by the vault.
    pub vault_lamports: u64,
    /// Reserve held by the venue's pool initializer.
    pub raydium_initializer_lamports: u64,
}

/// Why a migration is refused, checked in order, if it is.
pub open spec fn migrate_error(c: MigrateToRaydium) -> Option<DuelError> {
    if c.duel_account.is_active {
        Some(DuelError::DuelStillActive)
    } else if c.duel_account.winner.is_none() {
        Some(DuelError::NoWinner)
    } else if c.raydium_initializer_lamports + c.vault_lamports > u64::MAX {
        Some(DuelError::MathOverflow)
    } else {
        None
    }
}

/// The accounts after a migration: the vault's whole balance has moved to the
/// pool initializer, and the record is as it was.
pub open spec fn after_migrate(c: MigrateToRaydium) -> MigrateToRaydium {
    MigrateToRaydium {
        vault_lamports: 0,
        raydium_initializer_lamports: (c.raydium_initializer_lamports + c.vault_lamports) as u64,
        ..c
    }
}

/// Moves the whole vault balance of a won duel to the liquidity venue's pool
/// initializer, and returns the amount moved. Refused, for the reason
/// `migrate_error` gives, while the duel is open or has no winner; a refusal
/// changes nothing.
pub fn migrate_to_raydium(ctx: &mut MigrateToRaydium) -> (r: Result<u64, DuelError>)
    ensures
        migrate_error(*old(ctx)) matches Some(e) ==> r == Err::<u64, DuelError>(e) && *final(ctx)
            == *old(ctx),
        migrate_error(*old(ctx)) is None ==> r == Ok::<u64, DuelError>(old(ctx).vault_lamports)
            && *final(ctx) == after_migrate(*old(ctx)),
{
    if ctx.duel_account.is_active {
        return Err(DuelError::DuelStillActive);
    }
    if ctx.duel_account.winner.is_none() {
        return Err(DuelError::NoWinner);
    }
    let vault_balance = ctx.vault_lamports;
    if ctx.raydium_initializer_lamports > u64::MAX - vault_balance {
        return Err(DuelError::MathOverflow);
    }
    ctx.vault_lamports = 0;
    ctx.raydium_initializer_lamports = ctx.raydium_initializer_lamports + vault_balance;
    Ok(vault_balance)
}

/// A successful migration empties the vault, credits the venue with all of it
/// and leaves the record as it was; a second migration is then allowed, moves
/// nothing and changes nothing.
pub proof fn lemma_migration_drains_once(c: MigrateToRaydium)
    requires
        migrate_error(c) is None,
    ensures
        after_migrate(c).vault_lamports == 0,
        after_migrate(c).raydium_initializer_lamports == c.raydium_initializer_lamports
            + c.vault_lamports,
        after_migrate(c).duel_account == c.duel_account,
        migrate_error(after_migrate(c)) is None,
        after_migrate(after_migrate(c)) == after_migrate(c),
{
}

} // verus!
