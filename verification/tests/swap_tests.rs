use flexible_token_exchange::errors::ExchangeError;
use flexible_token_exchange::events::{SwapEvent, SOL_ID};
use flexible_token_exchange::pool::LiquidityPool;

const MINT: u64 = 81;
const USER: u64 = 90;

fn pool_with(token: u64, sol: u64, fee: u16) -> LiquidityPool {
    LiquidityPool::initialize_pool(MINT, 82, 83, 84, 85, token, sol, fee, 0)
}

#[test]
fn swap_token_to_sol_worked_example() {
    // effective_in = 1000 * 9970 / 10000 = 997
    // amount_out = 1_000_000 * 997 / (1_000_000 + 997) = 996
    let mut pool = pool_with(1_000_000, 1_000_000, 30);
    let result = pool.swap_token_to_sol(USER, 1_000, 0);
    assert_eq!(
        result,
        Ok(SwapEvent {
            user: USER,
            token_in: MINT,
            token_out: SOL_ID,
            amount_in: 1_000,
            amount_out: 996,
        })
    );
    assert_eq!(pool.token_reserve, 1_001_000);
    assert_eq!(pool.sol_reserve, 999_004);
    assert_eq!(pool.lp_supply, 1_000_000);
}

#[test]
fn swap_rejects_output_below_floor() {
    let mut pool = pool_with(1_000_000, 1_000_000, 30);
    let before = pool;
    let result = pool.swap_token_to_sol(USER, 1_000, 997);
    assert_eq!(result, Err(ExchangeError::SlippageExceeded));
    assert_eq!(pool, before);
}

#[test]
fn swap_accepts_output_at_exact_floor() {
    let mut pool = pool_with(1_000_000, 1_000_000, 30);
    let result = pool.swap_token_to_sol(USER, 1_000, 996);
    assert!(result.is_ok());
    assert_eq!(pool.sol_reserve, 999_004);
}

#[test]
fn swap_sol_to_token_mirror_scenario() {
    let mut pool = pool_with(1_000_000, 1_000_000, 30);
    let result = pool.swap_sol_to_token(USER, 1_000, 0);
    assert_eq!(
        result,
        Ok(SwapEvent {
            user: USER,
            token_in: SOL_ID,
            token_out: MINT,
            amount_in: 1_000,
            amount_out: 996,
        })
    );
    assert_eq!(pool.sol_reserve, 1_001_000);
    assert_eq!(pool.token_reserve, 999_004);
}

#[test]
fn swap_grows_reserve_product() {
    let mut pool = pool_with(1_000_000, 1_000_000, 30);
    let before = (pool.token_reserve as u128) * (pool.sol_reserve as u128);
    pool.swap_token_to_sol(USER, 1_000, 0).unwrap();
    let after = (pool.token_reserve as u128) * (pool.sol_reserve as u128);
    assert!(after >= before);
    pool.swap_sol_to_token(USER, 50_000, 0).unwrap();
    let again = (pool.token_reserve as u128) * (pool.sol_reserve as u128);
    assert!(again >= after);
}

#[test]
fn swap_fee_truncates_tiny_input_to_nothing() {
    // effective_in = 1 * 9970 / 10000 = 0, so the quote is 0 but the full
    // input is still deposited.
    let mut pool = pool_with(1_000_000, 1_000_000, 30);
    let result = pool.swap_token_to_sol(USER, 1, 0);
    assert_eq!(result.unwrap().amount_out, 0);
    assert_eq!(pool.token_reserve, 1_000_001);
    assert_eq!(pool.sol_reserve, 1_000_000);
}

#[test]
fn swap_drain_protection() {
    // With no token reserve the whole base reserve is quoted, which may
    // never be paid out.
    let mut pool = pool_with(0, 10, 0);
    let before = pool;
    let result = pool.swap_token_to_sol(USER, 5, 0);
    assert_eq!(result, Err(ExchangeError::InsufficientLiquidity));
    assert_eq!(pool, before);
}

#[test]
fn swap_slippage_checked_before_drain() {
    let mut pool = pool_with(0, 10, 0);
    let result = pool.swap_token_to_sol(USER, 5, 11);
    assert_eq!(result, Err(ExchangeError::SlippageExceeded));
}

#[test]
fn swap_rejects_fee_rate_beyond_scale() {
    // A fee above the whole basis-point scale cannot be applied; checked
    // arithmetic aborts the swap instead of wrapping.
    let mut pool = pool_with(10, 10, 20_000);
    let before = pool;
    let result = pool.swap_token_to_sol(USER, 5, 0);
    assert_eq!(result, Err(ExchangeError::ArithmeticOverflow));
    assert_eq!(pool, before);
    let mirrored = pool.swap_sol_to_token(USER, 5, 0);
    assert_eq!(mirrored, Err(ExchangeError::ArithmeticOverflow));
}

#[test]
fn swap_rejects_reserve_overflow() {
    let mut pool = pool_with(u64::MAX, 1_000, 0);
    let before = pool;
    let result = pool.swap_token_to_sol(USER, 1, 0);
    assert_eq!(result, Err(ExchangeError::ArithmeticOverflow));
    assert_eq!(pool, before);
}
