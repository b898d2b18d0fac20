//! Notifications emitted by successful operations. The host forwards them to
//! its notification sink; they are not on the success/failure critical path.

use vstd::prelude::*;

verus! {

/// The identity standing for the native base currency (SOL) in swap events,
/// where a concrete token would carry its mint identity.
pub const SOL_ID: u64 = 0;

/// Emitted by a successful swap in either direction.
#[derive(Clone, Copy, Debug, PartialEq, Eq, Structural)]
pub struct SwapEvent {
    /// The caller who traded against the pool.
    pub user: u64,
    /// Identity of the asset paid in ([`SOL_ID`] for the base currency).
    pub token_in: u64,
    /// Identity of the asset paid out ([`SOL_ID`] for the base currency).
    pub token_out: u64,
    /// The full input amount debited from the caller.
    pub amount_in: u64,
    /// The output amount credited to the caller.
    pub amount_out: u64,
}

/// Emitted by a successful fee update.
#[derive(Clone, Copy, Debug, PartialEq, Eq, Structural)]
pub struct FeeUpdateEvent {
    /// The pool whose fee changed, named by its asset identity.
    pub pool: u64,
    /// The fee rate that was replaced, in basis points.
    pub old_fee_rate: u16,
    /// The fee rate now in force, in basis points.
    pub new_fee_rate: u16,
    /// The authority who made the change.
    pub updated_by: u64,
}

} // verus!
