//! The two mirrored swap operations: trading the token against the pool's
//! base-currency reserve and the other way round, priced by the
//! constant-product curve with the fee retained inside the pool.

use vstd::prelude::*;

use crate::errors::ExchangeError;
use crate::events::{SwapEvent, SOL_ID};
use crate::math::{
    lemma_div_exact, lemma_div_mul_le, lemma_mul_div_upper, lemma_u64_mul_fits, BASIS_POINTS,
};
use crate::pool::LiquidityPool;

verus! {

/// The part of an input amount that trades once the pool's fee is skimmed:
/// `amount_in * (10000 - fee_rate) / 10000`, rounded down. The skimmed part
/// is still deposited into the pool, which is what makes the reserve product
/// grow on every swap. Meaningful for `fee_rate <= 10000`.
pub open spec fn fee_adjusted(amount_in: int, fee_rate: int) -> int {
    amount_in * (BASIS_POINTS as int - fee_rate) / (BASIS_POINTS as int)
}

/// The constant-product quote: with `adjusted_in` joining `reserve_in`, the
/// other leg releases `reserve_out * adjusted_in / (reserve_in + adjusted_in)`,
/// rounded down. Meaningful when the denominator is positive.
pub open spec fn swap_output(reserve_out: int, reserve_in: int, adjusted_in: int) -> int {
    reserve_out * adjusted_in / (reserve_in + adjusted_in)
}

/// The fee-adjusted input is between zero and the full input.
pub proof fn lemma_fee_adjusted_bounds(amount_in: int, fee_rate: int)
    requires
        0 <= amount_in,
        0 <= fee_rate <= BASIS_POINTS,
    ensures
        0 <= fee_adjusted(amount_in, fee_rate) <= amount_in,
{
    lemma_mul_div_upper(amount_in, BASIS_POINTS as int - fee_rate, BASIS_POINTS as int);
}

/// A quote never exceeds the output reserve.
pub proof fn lemma_swap_output_bounds(reserve_out: int, reserve_in: int, adjusted_in: int)
    requires
        0 <= reserve_out,
        0 <= reserve_in,
        0 <= adjusted_in,
        reserve_in + adjusted_in > 0,
    ensures
        0 <= swap_output(reserve_out, reserve_in, adjusted_in) <= reserve_out,
{
    lemma_mul_div_upper(reserve_out, adjusted_in, reserve_in + adjusted_in);
}

/// Value monotonicity: paying the full input `a` into one reserve while the
/// quote for the fee-adjusted part `adj` leaves the other keeps the reserve
/// product from shrinking.
proof fn lemma_swap_value(t: int, s: int, a: int, adj: int, out: int)
    requires
        0 <= t,
        0 <= s,
        0 <= adj <= a,
        0 <= out <= s,
        t + adj > 0,
        out * (t + adj) <= s * adj,
    ensures
        (t + a) * (s - out) >= t * s,
{
    assert((s - out) * (t + adj) >= s * t) by (nonlinear_arith)
        requires
            out * (t + adj) <= s * adj,
            0 <= s,
            0 <= t,
            0 <= adj,
    ;
    assert((t + a) * (s - out) >= (t + adj) * (s - out)) by (nonlinear_arith)
        requires
            adj <= a,
            0 <= s - out,
    ;
    assert((t + adj) * (s - out) == (s - out) * (t + adj)) by (nonlinear_arith);
    assert(s * t == t * s) by (nonlinear_arith);
}

/// One swap leg over plain reserves: validates, quotes, and returns
/// `(amount_out, new_reserve_in, new_reserve_out)`. Shared by both
/// directions.
fn swap_step(reserve_in: u64, reserve_out: u64, fee_rate: u16, amount_in: u64, min_amount_out: u64)
    -> (result: Result<(u64, u64, u64), ExchangeError>)
    requires
        fee_rate <= BASIS_POINTS ==> reserve_in as int + fee_adjusted(
            amount_in as int,
            fee_rate as int,
        ) > 0,
    ensures
        fee_rate > BASIS_POINTS ==> result == Err::<(u64, u64, u64), ExchangeError>(
            ExchangeError::ArithmeticOverflow,
        ),
        fee_rate <= BASIS_POINTS ==> ({
            let out = swap_output(
                reserve_out as int,
                reserve_in as int,
                fee_adjusted(amount_in as int, fee_rate as int),
            );
            &&& (out < min_amount_out ==> result == Err::<(u64, u64, u64), ExchangeError>(
                ExchangeError::SlippageExceeded,
            ))
            &&& (out >= min_amount_out && out >= reserve_out ==> result == Err::<
                (u64, u64, u64),
                ExchangeError,
            >(ExchangeError::InsufficientLiquidity))
            &&& (out >= min_amount_out && out < reserve_out && reserve_in + amount_in > u64::MAX
                ==> result == Err::<(u64, u64, u64), ExchangeError>(
                ExchangeError::ArithmeticOverflow,
            ))
            &&& (out >= min_amount_out && out < reserve_out && reserve_in + amount_in <= u64::MAX
                ==> result == Ok::<(u64, u64, u64), ExchangeError>(
                (
                    out as u64,
                    (reserve_in + amount_in) as u64,
                    (reserve_out - out) as u64,
                ),
            ))
        }),
        result matches Ok(v) ==> v.1 as int * v.2 as int >= reserve_in as int * reserve_out as int
            && v.0 < reserve_out,
{
    if (fee_rate as u64) > BASIS_POINTS {
        return Err(ExchangeError::ArithmeticOverflow);
    }
    let keep: u64 = BASIS_POINTS - (fee_rate as u64);
    proof {
        lemma_u64_mul_fits(amount_in as int, keep as int);
        lemma_fee_adjusted_bounds(amount_in as int, fee_rate as int);
    }
    let adjusted_in: u128 = (amount_in as u128) * (keep as u128) / (BASIS_POINTS as u128);
    let denominator: u128 = (reserve_in as u128) + adjusted_in;
    proof {
        lemma_u64_mul_fits(reserve_out as int, adjusted_in as int);
        lemma_swap_output_bounds(reserve_out as int, reserve_in as int, adjusted_in as int);
    }
    let out128: u128 = (reserve_out as u128) * adjusted_in / denominator;
    if out128 < (min_amount_out as u128) {
        return Err(ExchangeError::SlippageExceeded);
    }
    if out128 >= (reserve_out as u128) {
        return Err(ExchangeError::InsufficientLiquidity);
    }
    let amount_out: u64 = out128 as u64;
    if (reserve_in as u128) + (amount_in as u128) > (u64::MAX as u128) {
        return Err(ExchangeError::ArithmeticOverflow);
    }
    let new_reserve_in: u64 = reserve_in + amount_in;
    let new_reserve_out: u64 = reserve_out - amount_out;
    proof {
        let t = reserve_in as int;
        let s = reserve_out as int;
        let adj = adjusted_in as int;
        let out = out128 as int;
        assert(s * adj >= 0) by (nonlinear_arith)
            requires
                s >= 0,
                adj >= 0,
        ;
        lemma_div_mul_le(s * adj, t + adj);
        lemma_swap_value(t, s, amount_in as int, adj, out);
    }
    Ok((amount_out, new_reserve_in, new_reserve_out))
}

impl LiquidityPool {
    /// The base-currency amount that a token deposit of `token_amount` buys
    /// at the pool's current reserves and fee.
    pub open spec fn token_to_sol_quote(self, token_amount: u64) -> int {
        swap_output(
            self.sol_reserve as int,
            self.token_reserve as int,
            fee_adjusted(token_amount as int, self.fee_rate as int),
        )
    }

    /// The token amount that a base-currency deposit of `sol_amount` buys at
    /// the pool's current reserves and fee.
    pub open spec fn sol_to_token_quote(self, sol_amount: u64) -> int {
        swap_output(
            self.token_reserve as int,
            self.sol_reserve as int,
            fee_adjusted(sol_amount as int, self.fee_rate as int),
        )
    }

    /// Trades `token_amount` of the token for the base currency.
    ///
    /// The quote uses only the fee-adjusted input, while the full input is
    /// deposited, so the reserve product never shrinks on success. Fails with
    /// `SlippageExceeded` when the quote is below the caller's floor,
    /// `InsufficientLiquidity` when it would drain the whole base reserve,
    /// and `ArithmeticOverflow` when the fee rate exceeds the basis-point
    /// scale or the token reserve cannot absorb the deposit; every failure
    /// leaves the pool untouched. The host must debit the caller the full
    /// `token_amount` and credit the event's `amount_out` from the vaults, as
    /// one atomic unit with this state change.
    ///
    /// The quote divides by `reserve_in + adjusted_in`; callers must not ask
    /// for one when the token reserve and the adjusted input are both zero.
    pub fn swap_token_to_sol(&mut self, user: u64, token_amount: u64, min_sol_amount: u64)
        -> (result: Result<SwapEvent, ExchangeError>)
        requires
            old(self).wf(),
            old(self).fee_rate <= BASIS_POINTS ==> old(self).token_reserve as int + fee_adjusted(
                token_amount as int,
                old(self).fee_rate as int,
            ) > 0,
        ensures
            final(self).wf(),
            result is Err ==> *final(self) == *old(self),
            old(self).fee_rate > BASIS_POINTS ==> result == Err::<SwapEvent, ExchangeError>(
                ExchangeError::ArithmeticOverflow,
            ),
            old(self).fee_rate <= BASIS_POINTS ==> ({
                let out = old(self).token_to_sol_quote(token_amount);
                &&& (out < min_sol_amount ==> result == Err::<SwapEvent, ExchangeError>(
                    ExchangeError::SlippageExceeded,
                ))
                &&& (out >= min_sol_amount && out >= old(self).sol_reserve ==> result == Err::<
                    SwapEvent,
                    ExchangeError,
                >(ExchangeError::InsufficientLiquidity))
                &&& (out >= min_sol_amount && out < old(self).sol_reserve && old(
                    self,
                ).token_reserve + token_amount > u64::MAX ==> result == Err::<
                    SwapEvent,
                    ExchangeError,
                >(ExchangeError::ArithmeticOverflow))
                &&& (out >= min_sol_amount && out < old(self).sol_reserve && old(
                    self,
                ).token_reserve + token_amount <= u64::MAX ==> result == Ok::<
                    SwapEvent,
                    ExchangeError,
                >(SwapEvent {
                    user,
                    token_in: old(self).token_mint,
                    token_out: SOL_ID,
                    amount_in: token_amount,
                    amount_out: out as u64,
                }) && *final(self) == old(self).with_balances(
                    (old(self).token_reserve + token_amount) as u64,
                    (old(self).sol_reserve - out) as u64,
                    old(self).lp_supply,
                ))
            }),
            result is Ok ==> final(self).token_reserve as int * final(self).sol_reserve as int
                >= old(self).token_reserve as int * old(self).sol_reserve as int,
    {
        match swap_step(
            self.token_reserve,
            self.sol_reserve,
            self.fee_rate,
            token_amount,
            min_sol_amount,
        ) {
            Err(e) => Err(e),
            Ok((amount_out, new_token_reserve, new_sol_reserve)) => {
                proof {
                    if self.lp_supply == 0 && self.token_reserve == 0 {
                        let adj = fee_adjusted(token_amount as int, self.fee_rate as int);
                        lemma_div_exact(self.sol_reserve as int, adj);
                    }
                }
                let event = SwapEvent {
                    user,
                    token_in: self.token_mint,
                    token_out: SOL_ID,
                    amount_in: token_amount,
                    amount_out,
                };
                self.token_reserve = new_token_reserve;
                self.sol_reserve = new_sol_reserve;
                Ok(event)
            },
        }
    }

    /// Trades `sol_amount` of the base currency for the token: the exact
    /// mirror of [`Self::swap_token_to_sol`], with the reserves' roles
    /// exchanged. The same failure rules apply, and every failure leaves the
    /// pool untouched.
    ///
    /// The quote divides by `reserve_in + adjusted_in`; callers must not ask
    /// for one when the base reserve and the adjusted input are both zero.
    pub fn swap_sol_to_token(&mut self, user: u64, sol_amount: u64, min_token_amount: u64)
        -> (result: Result<SwapEvent, ExchangeError>)
        requires
            old(self).wf(),
            old(self).fee_rate <= BASIS_POINTS ==> old(self).sol_reserve as int + fee_adjusted(
                sol_amount as int,
                old(self).fee_rate as int,
            ) > 0,
        ensures
            final(self).wf(),
            result is Err ==> *final(self) == *old(self),
            old(self).fee_rate > BASIS_POINTS ==> result == Err::<SwapEvent, ExchangeError>(
                ExchangeError::ArithmeticOverflow,
            ),
            old(self).fee_rate <= BASIS_POINTS ==> ({
                let out = old(self).sol_to_token_quote(sol_amount);
                &&& (out < min_token_amount ==> result == Err::<SwapEvent, ExchangeError>(
                    ExchangeError::SlippageExceeded,
                ))
                &&& (out >= min_token_amount && out >= old(self).token_reserve ==> result == Err::<
                    SwapEvent,
                    ExchangeError,
                >(ExchangeError::InsufficientLiquidity))
                &&& (out >= min_token_amount && out < old(self).token_reserve && old(
                    self,
                ).sol_reserve + sol_amount > u64::MAX ==> result == Err::<
                    SwapEvent,
                    ExchangeError,
                >(ExchangeError::ArithmeticOverflow))
                &&& (out >= min_token_amount && out < old(self).token_reserve && old(
                    self,
                ).sol_reserve + sol_amount <= u64::MAX ==> result == Ok::<
                    SwapEvent,
                    ExchangeError,
                >(SwapEvent {
                    user,
                    token_in: SOL_ID,
                    token_out: old(self).token_mint,
                    amount_in: sol_amount,
                    amount_out: out as u64,
                }) && *final(self) == old(self).with_balances(
                    (old(self).token_reserve - out) as u64,
                    (old(self).sol_reserve + sol_amount) as u64,
                    old(self).lp_supply,
                ))
            }),
            result is Ok ==> final(self).token_reserve as int * final(self).sol_reserve as int
                >= old(self).token_reserve as int * old(self).sol_reserve as int,
    {
        match swap_step(
            self.sol_reserve,
            self.token_reserve,
            self.fee_rate,
            sol_amount,
            min_token_amount,
        ) {
            Err(e) => Err(e),
            Ok((amount_out, new_sol_reserve, new_token_reserve)) => {
                proof {
                    if self.lp_supply == 0 && self.sol_reserve == 0 {
                        let adj = fee_adjusted(sol_amount as int, self.fee_rate as int);
                        lemma_div_exact(self.token_reserve as int, adj);
                    }
                }
                let event = SwapEvent {
                    user,
                    token_in: SOL_ID,
                    token_out: self.token_mint,
                    amount_in: sol_amount,
                    amount_out,
                };
                self.token_reserve = new_token_reserve;
                self.sol_reserve = new_sol_reserve;
                Ok(event)
            },
        }
    }
}

} // verus!
