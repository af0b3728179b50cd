use letsgoduel::duel::{initialize_duel, DuelAccount, InitializeDuel, TokenSide, TARGET_SOL};
use letsgoduel::error::DuelError;
use letsgoduel::migrate::{migrate_to_raydium, MigrateToRaydium};
use letsgoduel::trade::{buy_tokens, sell_tokens, BuyTokens, SellTokens};

fn new_duel() -> DuelAccount {
    let ctx = InitializeDuel {
        token_a_mint: [1u8; 32],
        token_b_mint: [2u8; 32],
        vault: [3u8; 32],
        bump: 254,
    };
    initialize_duel(
        &ctx,
        "Alpha".to_string(),
        "ALP".to_string(),
        "Beta".to_string(),
        "BET".to_string(),
        [4u8; 32],
        [5u8; 32],
        1_000,
    )
    .unwrap()
}

fn buy_ctx(duel_account: DuelAccount, buyer_lamports: u64) -> BuyTokens {
    BuyTokens {
        duel: [9u8; 32],
        duel_account,
        token_a_mint_supply: 0,
        token_b_mint_supply: 0,
        vault_lamports: 0,
        buyer: [7u8; 32],
        buyer_lamports,
        buyer_token_amount: 0,
    }
}

fn sell_ctx(duel_account: DuelAccount, vault_lamports: u64, tokens: u64) -> SellTokens {
    SellTokens {
        duel: [9u8; 32],
        duel_account,
        token_a_mint_supply: tokens,
        token_b_mint_supply: tokens,
        vault_lamports,
        seller: [8u8; 32],
        seller_lamports: 0,
        seller_token_amount: tokens,
    }
}

#[test]
fn initialize_sets_up_open_duel() {
    let d = new_duel();
    assert_eq!(d.token_a_mint, [1u8; 32]);
    assert_eq!(d.token_b_mint, [2u8; 32]);
    assert_eq!(d.vault, [3u8; 32]);
    assert_eq!(d.founder_a, [4u8; 32]);
    assert_eq!(d.founder_b, [5u8; 32]);
    assert_eq!(d.token_a_sol_raised, 0);
    assert_eq!(d.token_b_sol_raised, 0);
    assert_eq!(d.token_a_supply, 0);
    assert_eq!(d.token_b_supply, 0);
    assert_eq!(d.winner, None);
    assert!(d.is_active);
    assert_eq!(d.created_at, 1_000);
    assert_eq!(d.finished_at, None);
    assert_eq!(d.target_sol, 85_000_000_000);
    assert_eq!(TARGET_SOL, 85_000_000_000);
    assert_eq!(d.token_a_symbol, "ALP");
    assert_eq!(d.token_b_name, "Beta");
    assert_eq!(d.bump, 254);
}

#[test]
fn initialize_accepts_longest_metadata() {
    let ctx = InitializeDuel { token_a_mint: [1u8; 32], token_b_mint: [2u8; 32], vault: [3u8; 32], bump: 1 };
    let r = initialize_duel(
        &ctx,
        "n".repeat(32),
        "s".repeat(10),
        "é".repeat(32),
        "ü".repeat(10),
        [4u8; 32],
        [5u8; 32],
        0,
    );
    assert!(r.is_ok());
}

#[test]
fn initialize_rejects_long_name() {
    let ctx = InitializeDuel { token_a_mint: [1u8; 32], token_b_mint: [2u8; 32], vault: [3u8; 32], bump: 1 };
    let r = initialize_duel(&ctx, "n".repeat(33), "A".to_string(), "B".to_string(), "B".to_string(), [4u8; 32], [5u8; 32], 0);
    assert_eq!(r.unwrap_err(), DuelError::MetadataTooLong);
}

#[test]
fn initialize_rejects_long_symbol() {
    let ctx = InitializeDuel { token_a_mint: [1u8; 32], token_b_mint: [2u8; 32], vault: [3u8; 32], bump: 1 };
    let r = initialize_duel(&ctx, "A".to_string(), "A".to_string(), "B".to_string(), "s".repeat(11), [4u8; 32], [5u8; 32], 0);
    assert_eq!(r.unwrap_err(), DuelError::MetadataTooLong);
}

#[test]
fn buy_that_reaches_target_wins() {
    let mut d = new_duel();
    d.target_sol = 100;
    let mut ctx = buy_ctx(d, 1_000);
    let ev = buy_tokens(&mut ctx, 100, TokenSide::TokenA, 0, 2_000).unwrap();
    assert_eq!(ev.tokens_amount, 10_000_000);
    assert_eq!(ev.sol_amount, 100);
    assert_eq!(ev.token_side, TokenSide::TokenA);
    assert_eq!(ev.duel, [9u8; 32]);
    assert_eq!(ev.buyer, [7u8; 32]);
    assert_eq!(ev.timestamp, 2_000);
    assert_eq!(ctx.duel_account.token_a_sol_raised, 100);
    assert_eq!(ctx.duel_account.token_a_supply, 10_000_000);
    assert_eq!(ctx.duel_account.winner, Some(TokenSide::TokenA));
    assert!(!ctx.duel_account.is_active);
    assert_eq!(ctx.duel_account.finished_at, Some(2_000));
    assert_eq!(ctx.vault_lamports, 100);
    assert_eq!(ctx.buyer_lamports, 900);
    assert_eq!(ctx.buyer_token_amount, 10_000_000);
    assert_eq!(ctx.token_a_mint_supply, 10_000_000);
    assert_eq!(ctx.token_b_mint_supply, 0);
}

#[test]
fn buy_after_win_is_refused() {
    let mut d = new_duel();
    d.target_sol = 100;
    let mut ctx = buy_ctx(d, 1_000);
    buy_tokens(&mut ctx, 100, TokenSide::TokenA, 0, 2_000).unwrap();
    let r = buy_tokens(&mut ctx, 50, TokenSide::TokenB, 0, 3_000);
    assert_eq!(r, Err(DuelError::DuelAlreadyWon));
    assert_eq!(ctx.duel_account.token_b_sol_raised, 0);
    assert_eq!(ctx.duel_account.token_b_supply, 0);
    assert_eq!(ctx.duel_account.token_a_sol_raised, 100);
    assert_eq!(ctx.duel_account.winner, Some(TokenSide::TokenA));
    assert_eq!(ctx.vault_lamports, 100);
    assert_eq!(ctx.buyer_lamports, 900);
}

#[test]
fn sell_after_win_is_refused() {
    let mut d = new_duel();
    d.target_sol = 100;
    let mut b = buy_ctx(d, 1_000);
    buy_tokens(&mut b, 100, TokenSide::TokenA, 0, 2_000).unwrap();
    let mut s = sell_ctx(b.duel_account.clone(), b.vault_lamports, 10_000_000);
    let r = sell_tokens(&mut s, 10_000_000, TokenSide::TokenA, 0, 3_000);
    assert_eq!(r, Err(DuelError::DuelAlreadyWon));
    assert_eq!(s.duel_account.token_a_sol_raised, 100);
    assert_eq!(s.duel_account.token_a_supply, 10_000_000);
    assert_eq!(s.vault_lamports, 100);
    assert_eq!(s.seller_token_amount, 10_000_000);
}

#[test]
fn buy_below_target_keeps_duel_open() {
    let mut ctx = buy_ctx(new_duel(), 1_000);
    buy_tokens(&mut ctx, 400, TokenSide::TokenB, 20_000_000, 5).unwrap();
    assert_eq!(ctx.duel_account.token_b_sol_raised, 400);
    assert_eq!(ctx.duel_account.token_b_supply, 20_000_000);
    assert_eq!(ctx.duel_account.winner, None);
    assert!(ctx.duel_account.is_active);
    assert_eq!(ctx.duel_account.finished_at, None);
}

#[test]
fn supply_is_sum_of_buys() {
    let mut ctx = buy_ctx(new_duel(), 1_000_000);
    let mut total: u64 = 0;
    for amount in [1u64, 2, 100, 12_345, 7] {
        let ev = buy_tokens(&mut ctx, amount, TokenSide::TokenA, 0, 0).unwrap();
        total += ev.tokens_amount;
    }
    assert_eq!(total, 1_000_000 + 1_414_213 + 10_000_000 + 111_108_055 + 2_645_751);
    assert_eq!(ctx.duel_account.token_a_supply, total);
    assert_eq!(ctx.token_a_mint_supply, total);
    assert_eq!(ctx.buyer_token_amount, total);
    assert_eq!(ctx.duel_account.token_a_sol_raised, 1 + 2 + 100 + 12_345 + 7);
    assert_eq!(ctx.vault_lamports, 1 + 2 + 100 + 12_345 + 7);
    assert_eq!(ctx.duel_account.token_b_supply, 0);
}

#[test]
fn buy_slippage_is_refused() {
    let mut ctx = buy_ctx(new_duel(), 1_000);
    let r = buy_tokens(&mut ctx, 100, TokenSide::TokenA, 10_000_001, 0);
    assert_eq!(r, Err(DuelError::SlippageExceeded));
    assert_eq!(ctx.buyer_lamports, 1_000);
    assert_eq!(ctx.duel_account.token_a_supply, 0);
}

#[test]
fn buy_without_funds_is_refused() {
    let mut ctx = buy_ctx(new_duel(), 99);
    let r = buy_tokens(&mut ctx, 100, TokenSide::TokenA, 0, 0);
    assert_eq!(r, Err(DuelError::InsufficientFunds));
    assert_eq!(ctx.vault_lamports, 0);
    assert_eq!(ctx.duel_account.token_a_sol_raised, 0);
}

#[test]
fn buy_on_inactive_duel_is_refused() {
    let mut d = new_duel();
    d.is_active = false;
    let mut ctx = buy_ctx(d, 1_000);
    assert_eq!(buy_tokens(&mut ctx, 1, TokenSide::TokenA, 0, 0), Err(DuelError::DuelInactive));
    let mut s = sell_ctx(ctx.duel_account.clone(), 0, 0);
    assert_eq!(sell_tokens(&mut s, 0, TokenSide::TokenA, 0, 0), Err(DuelError::DuelInactive));
}

#[test]
fn buy_overflow_is_refused() {
    let mut ctx = buy_ctx(new_duel(), 1_000);
    ctx.vault_lamports = u64::MAX;
    let r = buy_tokens(&mut ctx, 1, TokenSide::TokenA, 0, 0);
    assert_eq!(r, Err(DuelError::MathOverflow));
    assert_eq!(ctx.buyer_lamports, 1_000);
}

#[test]
fn sell_pays_from_vault() {
    let mut d = new_duel();
    d.token_a_sol_raised = 10_000;
    d.token_a_supply = 100_000_000;
    let mut s = sell_ctx(d, 10_000, 100_000_000);
    let ev = sell_tokens(&mut s, 100_000_000, TokenSide::TokenA, 9_900, 42).unwrap();
    assert_eq!(ev.sol_amount, 9_900);
    assert_eq!(ev.tokens_amount, 100_000_000);
    assert_eq!(ev.buyer, [8u8; 32]);
    assert_eq!(ev.timestamp, 42);
    assert_eq!(s.vault_lamports, 100);
    assert_eq!(s.seller_lamports, 9_900);
    assert_eq!(s.seller_token_amount, 0);
    assert_eq!(s.token_a_mint_supply, 0);
    assert_eq!(s.token_b_mint_supply, 100_000_000);
    assert_eq!(s.duel_account.token_a_sol_raised, 100);
    assert_eq!(s.duel_account.token_a_supply, 0);
}

#[test]
fn sell_one_million_with_empty_vault_pays_nothing() {
    // (1)^2 * 0.99 rounds down to 0, which an empty vault can pay
    let mut d = new_duel();
    d.token_b_supply = 1_000_000;
    let mut s = sell_ctx(d, 0, 1_000_000);
    let ev = sell_tokens(&mut s, 1_000_000, TokenSide::TokenB, 0, 0).unwrap();
    assert_eq!(ev.sol_amount, 0);
    assert_eq!(s.vault_lamports, 0);
    assert_eq!(s.duel_account.token_b_supply, 0);
}

#[test]
fn sell_beyond_vault_balance_is_refused() {
    let mut d = new_duel();
    d.token_a_sol_raised = 1_000;
    d.token_a_supply = 10_000_000;
    let mut s = sell_ctx(d, 0, 10_000_000);
    let r = sell_tokens(&mut s, 10_000_000, TokenSide::TokenA, 0, 0);
    assert_eq!(r, Err(DuelError::InsufficientVaultBalance));
    assert_eq!(s.vault_lamports, 0);
    assert_eq!(s.seller_token_amount, 10_000_000);
    assert_eq!(s.duel_account.token_a_sol_raised, 1_000);
    assert_eq!(s.duel_account.token_a_supply, 10_000_000);
}

#[test]
fn cheap_buys_then_sale_overdraws_vault() {
    // the price ignores history, so many small buys can outweigh the vault
    let mut b = buy_ctx(new_duel(), 1_000);
    for _ in 0..100 {
        buy_tokens(&mut b, 1, TokenSide::TokenA, 0, 0).unwrap();
    }
    assert_eq!(b.vault_lamports, 100);
    assert_eq!(b.buyer_token_amount, 100_000_000);
    let mut s = SellTokens {
        duel: b.duel,
        duel_account: b.duel_account.clone(),
        token_a_mint_supply: b.token_a_mint_supply,
        token_b_mint_supply: b.token_b_mint_supply,
        vault_lamports: b.vault_lamports,
        seller: b.buyer,
        seller_lamports: b.buyer_lamports,
        seller_token_amount: b.buyer_token_amount,
    };
    let r = sell_tokens(&mut s, 100_000_000, TokenSide::TokenA, 0, 0);
    assert_eq!(r, Err(DuelError::InsufficientVaultBalance));
    assert_eq!(s.vault_lamports, 100);
}

#[test]
fn sell_slippage_is_refused() {
    let mut d = new_duel();
    d.token_a_sol_raised = 1_000;
    d.token_a_supply = 10_000_000;
    let mut s = sell_ctx(d, 1_000, 10_000_000);
    assert_eq!(sell_tokens(&mut s, 10_000_000, TokenSide::TokenA, 100, 0), Err(DuelError::SlippageExceeded));
    assert_eq!(s.vault_lamports, 1_000);
}

#[test]
fn sell_more_than_held_is_refused() {
    let mut d = new_duel();
    d.token_a_sol_raised = 1_000;
    d.token_a_supply = 10_000_000;
    let mut s = sell_ctx(d, 1_000, 9_999_999);
    assert_eq!(sell_tokens(&mut s, 10_000_000, TokenSide::TokenA, 0, 0), Err(DuelError::InsufficientTokens));
    assert_eq!(s.seller_token_amount, 9_999_999);
}

#[test]
fn sell_below_raised_is_refused() {
    let mut d = new_duel();
    d.token_a_sol_raised = 98;
    d.token_a_supply = 10_000_000;
    let mut s = sell_ctx(d, 1_000, 10_000_000);
    assert_eq!(sell_tokens(&mut s, 10_000_000, TokenSide::TokenA, 0, 0), Err(DuelError::CounterUnderflow));
    assert_eq!(s.duel_account.token_a_sol_raised, 98);
    assert_eq!(s.vault_lamports, 1_000);
}

#[test]
fn sell_price_overflow_is_refused() {
    let mut s = sell_ctx(new_duel(), u64::MAX, u64::MAX);
    assert_eq!(sell_tokens(&mut s, u64::MAX, TokenSide::TokenA, 0, 0), Err(DuelError::MathOverflow));
}

#[test]
fn migrate_moves_whole_vault_once() {
    let mut d = new_duel();
    d.target_sol = 100;
    let mut b = buy_ctx(d, 1_000);
    buy_tokens(&mut b, 250, TokenSide::TokenB, 0, 0).unwrap();
    let mut m = MigrateToRaydium {
        duel_account: b.duel_account.clone(),
        vault_lamports: b.vault_lamports,
        raydium_initializer_lamports: 5,
    };
    assert_eq!(migrate_to_raydium(&mut m), Ok(250));
    assert_eq!(m.vault_lamports, 0);
    assert_eq!(m.raydium_initializer_lamports, 255);
    assert_eq!(migrate_to_raydium(&mut m), Ok(0));
    assert_eq!(m.vault_lamports, 0);
    assert_eq!(m.raydium_initializer_lamports, 255);
}

#[test]
fn migrate_open_duel_is_refused() {
    let mut m = MigrateToRaydium { duel_account: new_duel(), vault_lamports: 10, raydium_initializer_lamports: 0 };
    assert_eq!(migrate_to_raydium(&mut m), Err(DuelError::DuelStillActive));
    assert_eq!(m.vault_lamports, 10);
}

#[test]
fn migrate_without_winner_is_refused() {
    let mut d = new_duel();
    d.is_active = false;
    let mut m = MigrateToRaydium { duel_account: d, vault_lamports: 10, raydium_initializer_lamports: 0 };
    assert_eq!(migrate_to_raydium(&mut m), Err(DuelError::NoWinner));
    assert_eq!(m.vault_lamports, 10);
}

#[test]
fn migrate_overflow_is_refused() {
    let mut d = new_duel();
    d.is_active = false;
    d.winner = Some(TokenSide::TokenA);
    let mut m = MigrateToRaydium { duel_account: d, vault_lamports: 10, raydium_initializer_lamports: u64::MAX };
    assert_eq!(migrate_to_raydium(&mut m), Err(DuelError::MathOverflow));
    assert_eq!(m.vault_lamports, 10);
}
