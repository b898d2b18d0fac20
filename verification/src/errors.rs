//! The ways an exchange operation can be refused. Every error aborts the
//! whole operation: the pool is left exactly as it was.

use vstd::prelude::*;

verus! {

/// Why an exchange operation failed.
///
/// All arithmetic in the exchange is checked: an addition that would push a
/// reserve or the liquidity supply past `u64::MAX`, or a fee rate above the
/// whole basis-point scale, aborts the operation with [`ArithmeticOverflow`]
/// instead of wrapping.
///
/// [`ArithmeticOverflow`]: ExchangeError::ArithmeticOverflow
#[derive(Clone, Copy, Debug, PartialEq, Eq, Structural)]
pub enum ExchangeError {
    /// A computed output or mint amount fell below the caller's floor.
    SlippageExceeded,
    /// A swap would drain the whole output reserve.
    InsufficientLiquidity,
    /// The asset reference failed validation at pool creation.
    InvalidTokenMint,
    /// The pool record does not exist or was never initialized.
    PoolNotInitialized,
    /// The caller is not the pool's recorded authority.
    Unauthorized,
    /// A fee rate above the 10% cap was proposed.
    InvalidFeeRate,
    /// Checked arithmetic could not represent a result in its fixed width.
    ArithmeticOverflow,
}

} // verus!
