//! The pool record: one trading pair's reserves, fee, liquidity supply and
//! authority, together with pool creation and the authority-gated fee update.

use vstd::prelude::*;

use crate::errors::ExchangeError;
use crate::events::FeeUpdateEvent;
use crate::math::{is_sqrt_floor, isqrt, lemma_sqrt_floor_pos, lemma_u64_mul_fits, sqrt_floor};

verus! {

/// The highest fee rate `update_pool_fee` accepts: 1000 basis points (10%).
pub const MAX_FEE_RATE: u16 = 1000;

/// One liquidity pool: the persistent record of a token / base-currency
/// trading pair.
///
/// External accounts (the asset mint, the two custody vaults, the liquidity
/// mint, the authority) are opaque handles: the pool only records identities
/// for them, together with the balances it believes those accounts mirror.
/// The pool's own identity is derived deterministically from `token_mint`,
/// so at most one pool exists per asset; the host enforces that a second
/// creation for the same asset fails.
#[derive(Clone, Copy, Debug, PartialEq, Eq, Structural)]
pub struct LiquidityPool {
    /// Identity of the traded token's mint.
    pub token_mint: u64,
    /// Identity of the custody account holding the token reserve.
    pub token_vault: u64,
    /// Identity of the custody account holding the base-currency reserve.
    pub sol_vault: u64,
    /// Identity of the mint tracking outstanding liquidity shares.
    pub lp_mint: u64,
    /// Recorded token holdings.
    pub token_reserve: u64,
    /// Recorded base-currency holdings.
    pub sol_reserve: u64,
    /// Total liquidity shares outstanding.
    pub lp_supply: u64,
    /// Trading fee in basis points.
    pub fee_rate: u16,
    /// The identity permitted to change `fee_rate`.
    pub pool_authority: u64,
    /// Set once at creation.
    pub is_initialized: bool,
    /// Creation timestamp supplied by the host's clock.
    pub created_at: i64,
}

impl LiquidityPool {
    /// Well-formedness: liquidity shares are outstanding exactly when both
    /// reserves are stocked. Pool creation establishes this and every
    /// operation preserves it; it is what keeps the proportional-share
    /// divisions meaningful.
    pub open spec fn wf(self) -> bool {
        self.lp_supply > 0 <==> (self.token_reserve > 0 && self.sol_reserve > 0)
    }

    /// The same pool with its balances replaced: how every reserve-moving
    /// operation describes its effect.
    pub open spec fn with_balances(self, token_reserve: u64, sol_reserve: u64, lp_supply: u64) -> LiquidityPool {
        LiquidityPool { token_reserve, sol_reserve, lp_supply, ..self }
    }

    /// The same pool with its fee replaced.
    pub open spec fn with_fee(self, fee_rate: u16) -> LiquidityPool {
        LiquidityPool { fee_rate, ..self }
    }

    /// Creates the pool record for one asset and seeds it.
    ///
    /// The genesis liquidity supply is the geometric mean of the two deposits,
    /// rounded down: `floor(sqrt(initial_token_amount * initial_sol_amount))`.
    /// This is the only place liquidity may be minted without an existing
    /// supply baseline. The fee rate is recorded as given, without a bound
    /// check: only `update_pool_fee` enforces the cap.
    ///
    /// The host must first derive the vault, mint and authority identities
    /// deterministically from the asset identity (failing on a duplicate
    /// pool), and afterwards move both seed deposits into the vaults, undoing
    /// the creation if a transfer fails.
    pub fn initialize_pool(
        token_mint: u64,
        token_vault: u64,
        sol_vault: u64,
        lp_mint: u64,
        pool_authority: u64,
        initial_token_amount: u64,
        initial_sol_amount: u64,
        fee_rate: u16,
        created_at: i64,
    ) -> (pool: LiquidityPool)
        ensures
            pool == (LiquidityPool {
                token_mint,
                token_vault,
                sol_vault,
                lp_mint,
                token_reserve: initial_token_amount,
                sol_reserve: initial_sol_amount,
                lp_supply: pool.lp_supply,
                fee_rate,
                pool_authority,
                is_initialized: true,
                created_at,
            }),
            pool.lp_supply as int == sqrt_floor(
                initial_token_amount as int * initial_sol_amount as int,
            ),
            is_sqrt_floor(
                pool.lp_supply as int,
                initial_token_amount as int * initial_sol_amount as int,
            ),
            pool.wf(),
    {
        proof {
            lemma_u64_mul_fits(initial_token_amount as int, initial_sol_amount as int);
        }
        let lp_supply = isqrt((initial_token_amount as u128) * (initial_sol_amount as u128));
        proof {
            let product = initial_token_amount as int * initial_sol_amount as int;
            lemma_sqrt_floor_pos(product);
            assert(product >= 1 <==> (initial_token_amount > 0 && initial_sol_amount > 0))
                by (nonlinear_arith)
                requires
                    product == initial_token_amount as int * initial_sol_amount as int,
                    0 <= initial_token_amount,
                    0 <= initial_sol_amount,
            ;
        }
        LiquidityPool {
            token_mint,
            token_vault,
            sol_vault,
            lp_mint,
            token_reserve: initial_token_amount,
            sol_reserve: initial_sol_amount,
            lp_supply,
            fee_rate,
            pool_authority,
            is_initialized: true,
            created_at,
        }
    }

    /// Replaces the trading fee. Only the recorded authority may do so, and
    /// only with a rate within the 10% cap; any refusal leaves the pool
    /// untouched.
    pub fn update_pool_fee(&mut self, caller: u64, new_fee_rate: u16) -> (result: Result<
        FeeUpdateEvent,
        ExchangeError,
    >)
        ensures
            caller != old(self).pool_authority ==> result == Err::<FeeUpdateEvent, ExchangeError>(
                ExchangeError::Unauthorized,
            ) && *final(self) == *old(self),
            caller == old(self).pool_authority && new_fee_rate > MAX_FEE_RATE ==> result == Err::<
                FeeUpdateEvent,
                ExchangeError,
            >(ExchangeError::InvalidFeeRate) && *final(self) == *old(self),
            caller == old(self).pool_authority && new_fee_rate <= MAX_FEE_RATE ==> result == Ok::<
                FeeUpdateEvent,
                ExchangeError,
            >(FeeUpdateEvent {
                pool: old(self).token_mint,
                old_fee_rate: old(self).fee_rate,
                new_fee_rate,
                updated_by: caller,
            }) && *final(self) == old(self).with_fee(new_fee_rate),
            old(self).wf() ==> final(self).wf(),
    {
        if caller != self.pool_authority {
            return Err(ExchangeError::Unauthorized);
        }
        if new_fee_rate > MAX_FEE_RATE {
            return Err(ExchangeError::InvalidFeeRate);
        }
        let old_fee_rate = self.fee_rate;
        self.fee_rate = new_fee_rate;
        Ok(FeeUpdateEvent {
            pool: self.token_mint,
            old_fee_rate,
            new_fee_rate,
            updated_by: caller,
        })
    }
}

} // verus!
