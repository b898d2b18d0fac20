//! A constant-product automated market maker: a liquidity pool holding paired
//! reserves of a token and the native base currency, with verified swap,
//! deposit, withdrawal, and fee-update operations.
//!
//! The pool is a pure state machine: every operation validates its inputs,
//! computes amounts with exact integer arithmetic, and either mutates the pool
//! atomically or fails with an [`errors::ExchangeError`] leaving the pool
//! untouched. Moving the underlying assets is delegated to the host, which
//! performs the transfers described by each operation's return value.

pub mod errors;
pub mod events;
pub mod laws;
pub mod liquidity;
pub mod math;
pub mod pool;
pub mod swap;
