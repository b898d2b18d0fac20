use flexible_token_exchange::errors::ExchangeError;
use flexible_token_exchange::events::FeeUpdateEvent;
use flexible_token_exchange::pool::LiquidityPool;

const MINT: u64 = 71;
const TOKEN_VAULT: u64 = 72;
const SOL_VAULT: u64 = 73;
const LP_MINT: u64 = 74;
const AUTHORITY: u64 = 75;

fn fresh_pool(token: u64, sol: u64, fee: u16) -> LiquidityPool {
    LiquidityPool::initialize_pool(
        MINT,
        TOKEN_VAULT,
        SOL_VAULT,
        LP_MINT,
        AUTHORITY,
        token,
        sol,
        fee,
        1_700_000_000,
    )
}

#[test]
fn genesis_invariant() {
    let pool = fresh_pool(4_000_000, 1_000_000, 30);
    assert_eq!(pool.token_reserve, 4_000_000);
    assert_eq!(pool.sol_reserve, 1_000_000);
    assert_eq!(pool.lp_supply, 2_000_000);
    assert_eq!(pool.fee_rate, 30);
    assert_eq!(pool.token_mint, MINT);
    assert_eq!(pool.token_vault, TOKEN_VAULT);
    assert_eq!(pool.sol_vault, SOL_VAULT);
    assert_eq!(pool.lp_mint, LP_MINT);
    assert_eq!(pool.pool_authority, AUTHORITY);
    assert!(pool.is_initialized);
    assert_eq!(pool.created_at, 1_700_000_000);
}

#[test]
fn genesis_supply_truncates_geometric_mean() {
    let pool = fresh_pool(2, 3, 0);
    assert_eq!(pool.lp_supply, 2);
}

#[test]
fn genesis_with_empty_leg_mints_nothing() {
    let pool = fresh_pool(5, 0, 30);
    assert_eq!(pool.lp_supply, 0);
    assert_eq!(pool.token_reserve, 5);
    assert_eq!(pool.sol_reserve, 0);
}

#[test]
fn genesis_fee_rate_is_not_validated() {
    let pool = fresh_pool(10, 10, 20_000);
    assert_eq!(pool.fee_rate, 20_000);
}

#[test]
fn update_pool_fee_rejects_above_cap() {
    let mut pool = fresh_pool(1_000, 1_000, 30);
    let before = pool;
    let result = pool.update_pool_fee(AUTHORITY, 1_001);
    assert_eq!(result, Err(ExchangeError::InvalidFeeRate));
    assert_eq!(pool, before);
}

#[test]
fn update_pool_fee_replaces_within_cap() {
    let mut pool = fresh_pool(1_000, 1_000, 30);
    let result = pool.update_pool_fee(AUTHORITY, 1_000);
    assert_eq!(
        result,
        Ok(FeeUpdateEvent {
            pool: MINT,
            old_fee_rate: 30,
            new_fee_rate: 1_000,
            updated_by: AUTHORITY,
        })
    );
    assert_eq!(pool.fee_rate, 1_000);
    assert_eq!(pool.token_reserve, 1_000);
    assert_eq!(pool.sol_reserve, 1_000);
    assert_eq!(pool.lp_supply, 1_000);
}

#[test]
fn update_pool_fee_accepts_zero() {
    let mut pool = fresh_pool(1_000, 1_000, 30);
    let result = pool.update_pool_fee(AUTHORITY, 0);
    assert!(result.is_ok());
    assert_eq!(pool.fee_rate, 0);
}

#[test]
fn update_pool_fee_rejects_stranger() {
    let mut pool = fresh_pool(1_000, 1_000, 30);
    let before = pool;
    let result = pool.update_pool_fee(AUTHORITY + 1, 500);
    assert_eq!(result, Err(ExchangeError::Unauthorized));
    assert_eq!(pool, before);
}

#[test]
fn update_pool_fee_checks_authority_before_rate() {
    let mut pool = fresh_pool(1_000, 1_000, 30);
    let result = pool.update_pool_fee(AUTHORITY + 1, 2_000);
    assert_eq!(result, Err(ExchangeError::Unauthorized));
}
