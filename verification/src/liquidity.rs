//! Proportional-share accounting: depositing paired liquidity for newly
//! minted shares, and redeeming shares for a proportional slice of both
//! reserves.

use vstd::prelude::*;

use crate::errors::ExchangeError;
use crate::math::{
    isqrt, lemma_div_below, lemma_div_exact, lemma_div_le_self, lemma_mul_div_upper,
    lemma_u64_mul_fits, mul_div_floor, sqrt_floor,
};
use crate::pool::LiquidityPool;

verus! {

/// The base-currency deposit that matches a token deposit of `token_amount`
/// at the pool's current ratio; with no token reserve the request stands.
pub open spec fn optimal_sol(t_r: int, s_r: int, token_amount: int, sol_amount: int) -> int {
    if t_r == 0 {
        sol_amount
    } else {
        token_amount * s_r / t_r
    }
}

/// The token deposit that matches a base-currency deposit of `sol_amount` at
/// the pool's current ratio; with no base reserve the request stands.
pub open spec fn optimal_token(t_r: int, s_r: int, token_amount: int, sol_amount: int) -> int {
    if s_r == 0 {
        token_amount
    } else {
        sol_amount * t_r / s_r
    }
}

/// The token amount a deposit actually moves: the request, clamped by the
/// ratio-matching amount. Each leg is clamped independently.
pub open spec fn final_token_amount(t_r: int, s_r: int, token_amount: int, sol_amount: int) -> int {
    let optimal = optimal_token(t_r, s_r, token_amount, sol_amount);
    if token_amount <= optimal {
        token_amount
    } else {
        optimal
    }
}

/// The base-currency amount a deposit actually moves: the request, clamped by
/// the ratio-matching amount.
pub open spec fn final_sol_amount(t_r: int, s_r: int, token_amount: int, sol_amount: int) -> int {
    let optimal = optimal_sol(t_r, s_r, token_amount, sol_amount);
    if sol_amount <= optimal {
        sol_amount
    } else {
        optimal
    }
}

/// The liquidity shares a deposit of `(final_token, final_sol)` mints: with
/// no supply baseline, the geometric mean of the deposit, rounded down;
/// otherwise the smaller of the two proportional claims, so an imbalanced
/// deposit cannot dilute existing holders. Meaningful when a positive supply
/// comes with positive reserves.
pub open spec fn lp_tokens_minted(
    t_r: int,
    s_r: int,
    lp_supply: int,
    final_token: int,
    final_sol: int,
) -> int {
    if lp_supply == 0 {
        sqrt_floor(final_token * final_sol)
    } else {
        let by_token = final_token * lp_supply / t_r;
        let by_sol = final_sol * lp_supply / s_r;
        if by_token <= by_sol {
            by_token
        } else {
            by_sol
        }
    }
}

/// The slice of one reserve that redeeming `lp_tokens` of `lp_supply` shares
/// pays out, rounded down: rounding always favours the pool.
pub open spec fn withdrawal_amount(reserve: int, lp_tokens: int, lp_supply: int) -> int {
    reserve * lp_tokens / lp_supply
}

/// What a successful deposit moved: the clamped amounts the host must pull
/// into the vaults, and the shares minted to the depositor.
#[derive(Clone, Copy, Debug, PartialEq, Eq, Structural)]
pub struct LiquidityAdded {
    /// Token amount actually deposited.
    pub token_in: u64,
    /// Base-currency amount actually deposited.
    pub sol_in: u64,
    /// Liquidity shares minted.
    pub lp_minted: u64,
}

/// What a successful withdrawal pays out: the amounts the host must push
/// from the vaults to the caller.
#[derive(Clone, Copy, Debug, PartialEq, Eq, Structural)]
pub struct LiquidityRemoved {
    /// Token amount paid out.
    pub token_out: u64,
    /// Base-currency amount paid out.
    pub sol_out: u64,
}

impl LiquidityPool {
    /// Deposits liquidity. Each leg of the request is clamped independently
    /// to the pool's current ratio, the clamped deposit mints shares by the
    /// minimum-ratio rule, and the reserves and supply grow by exactly what
    /// moved.
    ///
    /// Fails with `SlippageExceeded` when the minted shares fall below
    /// `min_lp_tokens`, and with `ArithmeticOverflow` when a reserve or the
    /// supply cannot absorb the growth; every failure leaves the pool
    /// untouched. The host must pull the receipt's `token_in` and `sol_in`
    /// (not the requested amounts) into the vaults, as one atomic unit with
    /// this state change.
    pub fn add_liquidity(&mut self, token_amount: u64, sol_amount: u64, min_lp_tokens: u64)
        -> (result: Result<LiquidityAdded, ExchangeError>)
        requires
            old(self).wf(),
        ensures
            final(self).wf(),
            result is Err ==> *final(self) == *old(self),
            ({
                let t_r = old(self).token_reserve as int;
                let s_r = old(self).sol_reserve as int;
                let supply = old(self).lp_supply as int;
                let ft = final_token_amount(t_r, s_r, token_amount as int, sol_amount as int);
                let fs = final_sol_amount(t_r, s_r, token_amount as int, sol_amount as int);
                let minted = lp_tokens_minted(t_r, s_r, supply, ft, fs);
                &&& (minted < min_lp_tokens ==> result == Err::<LiquidityAdded, ExchangeError>(
                    ExchangeError::SlippageExceeded,
                ))
                &&& (minted >= min_lp_tokens && (t_r + ft > u64::MAX || s_r + fs > u64::MAX
                    || supply + minted > u64::MAX) ==> result == Err::<
                    LiquidityAdded,
                    ExchangeError,
                >(ExchangeError::ArithmeticOverflow))
                &&& (minted >= min_lp_tokens && t_r + ft <= u64::MAX && s_r + fs <= u64::MAX
                    && supply + minted <= u64::MAX ==> result == Ok::<
                    LiquidityAdded,
                    ExchangeError,
                >(LiquidityAdded {
                    token_in: ft as u64,
                    sol_in: fs as u64,
                    lp_minted: minted as u64,
                }) && *final(self) == old(self).with_balances(
                    (t_r + ft) as u64,
                    (s_r + fs) as u64,
                    (supply + minted) as u64,
                ))
            }),
    {
        let t_r = self.token_reserve;
        let s_r = self.sol_reserve;
        let supply = self.lp_supply;

        let optimal_sol_amount: u128 = if t_r == 0 {
            sol_amount as u128
        } else {
            mul_div_floor(token_amount, s_r, t_r)
        };
        let optimal_token_amount: u128 = if s_r == 0 {
            token_amount as u128
        } else {
            mul_div_floor(sol_amount, t_r, s_r)
        };
        let ft: u64 = if (token_amount as u128) <= optimal_token_amount {
            token_amount
        } else {
            optimal_token_amount as u64
        };
        let fs: u64 = if (sol_amount as u128) <= optimal_sol_amount {
            sol_amount
        } else {
            optimal_sol_amount as u64
        };

        let minted128: u128 = if supply == 0 {
            proof {
                lemma_u64_mul_fits(ft as int, fs as int);
            }
            isqrt((ft as u128) * (fs as u128)) as u128
        } else {
            let by_token = mul_div_floor(ft, supply, t_r);
            let by_sol = mul_div_floor(fs, supply, s_r);
            if by_token <= by_sol {
                by_token
            } else {
                by_sol
            }
        };
        if minted128 < (min_lp_tokens as u128) {
            return Err(ExchangeError::SlippageExceeded);
        }
        proof {
            lemma_u64_mul_fits(ft as int, supply as int);
            if supply > 0 {
                lemma_div_le_self((ft as int) * (supply as int), t_r as int);
            }
        }
        let new_token_reserve: u128 = (t_r as u128) + (ft as u128);
        let new_sol_reserve: u128 = (s_r as u128) + (fs as u128);
        let new_lp_supply: u128 = (supply as u128) + minted128;
        if new_token_reserve > (u64::MAX as u128) || new_sol_reserve > (u64::MAX as u128)
            || new_lp_supply > (u64::MAX as u128) {
            return Err(ExchangeError::ArithmeticOverflow);
        }
        proof {
            let ft_i = ft as int;
            let fs_i = fs as int;
            if supply == 0 {
                lemma_u64_mul_fits(ft_i, fs_i);
                crate::math::lemma_sqrt_floor_pos(ft_i * fs_i);
                if minted128 > 0 {
                    assert(ft_i >= 1 && fs_i >= 1) by (nonlinear_arith)
                        requires
                            ft_i * fs_i >= 1,
                            0 <= ft_i,
                            0 <= fs_i,
                    ;
                } else {
                    assert(ft_i == 0 || fs_i == 0) by (nonlinear_arith)
                        requires
                            ft_i * fs_i < 1,
                            0 <= ft_i,
                            0 <= fs_i,
                    ;
                    if ft == 0 && t_r > 0 {
                        assert(s_r == 0);
                        assert((token_amount as int) * (s_r as int) / (t_r as int) == 0)
                            by (nonlinear_arith)
                            requires
                                s_r == 0,
                                t_r >= 1,
                                token_amount >= 0,
                        ;
                    }
                    if fs == 0 && s_r > 0 {
                        assert(t_r == 0);
                        assert((sol_amount as int) * (t_r as int) / (s_r as int) == 0)
                            by (nonlinear_arith)
                            requires
                                t_r == 0,
                                s_r >= 1,
                                sol_amount >= 0,
                        ;
                    }
                }
            }
        }
        self.token_reserve = new_token_reserve as u64;
        self.sol_reserve = new_sol_reserve as u64;
        self.lp_supply = new_lp_supply as u64;
        Ok(LiquidityAdded { token_in: ft, sol_in: fs, lp_minted: minted128 as u64 })
    }

    /// Redeems `lp_tokens` shares for a proportional slice of both reserves,
    /// rounded down in the pool's favour.
    ///
    /// Fails with `SlippageExceeded` when either slice falls below its floor,
    /// leaving the pool untouched. The external ledger is trusted to have
    /// verified that the caller holds the redeemed shares and to burn them in
    /// the same atomic step in which the host pays out the receipt's amounts
    /// from the vaults; hence the bound on `lp_tokens` is a precondition
    /// rather than a check.
    pub fn remove_liquidity(&mut self, lp_tokens: u64, min_token_amount: u64, min_sol_amount: u64)
        -> (result: Result<LiquidityRemoved, ExchangeError>)
        requires
            old(self).wf(),
            old(self).lp_supply > 0,
            lp_tokens <= old(self).lp_supply,
        ensures
            final(self).wf(),
            result is Err ==> *final(self) == *old(self),
            ({
                let t_r = old(self).token_reserve as int;
                let s_r = old(self).sol_reserve as int;
                let supply = old(self).lp_supply as int;
                let out_t = withdrawal_amount(t_r, lp_tokens as int, supply);
                let out_s = withdrawal_amount(s_r, lp_tokens as int, supply);
                &&& (out_t < min_token_amount ==> result == Err::<LiquidityRemoved, ExchangeError>(
                    ExchangeError::SlippageExceeded,
                ))
                &&& (out_t >= min_token_amount && out_s < min_sol_amount ==> result == Err::<
                    LiquidityRemoved,
                    ExchangeError,
                >(ExchangeError::SlippageExceeded))
                &&& (out_t >= min_token_amount && out_s >= min_sol_amount ==> result == Ok::<
                    LiquidityRemoved,
                    ExchangeError,
                >(LiquidityRemoved { token_out: out_t as u64, sol_out: out_s as u64 })
                    && *final(self) == old(self).with_balances(
                    (t_r - out_t) as u64,
                    (s_r - out_s) as u64,
                    (supply - lp_tokens) as u64,
                ))
            }),
    {
        let t_r = self.token_reserve;
        let s_r = self.sol_reserve;
        let supply = self.lp_supply;

        let out_t128 = mul_div_floor(t_r, lp_tokens, supply);
        let out_s128 = mul_div_floor(s_r, lp_tokens, supply);
        proof {
            lemma_mul_div_upper(t_r as int, lp_tokens as int, supply as int);
            lemma_mul_div_upper(s_r as int, lp_tokens as int, supply as int);
        }
        if out_t128 < (min_token_amount as u128) {
            return Err(ExchangeError::SlippageExceeded);
        }
        if out_s128 < (min_sol_amount as u128) {
            return Err(ExchangeError::SlippageExceeded);
        }
        let out_t = out_t128 as u64;
        let out_s = out_s128 as u64;
        proof {
            if lp_tokens < supply {
                assert((t_r as int) * (lp_tokens as int) < (t_r as int) * (supply as int))
                    by (nonlinear_arith)
                    requires
                        t_r >= 1,
                        lp_tokens < supply,
                ;
                assert((s_r as int) * (lp_tokens as int) < (s_r as int) * (supply as int))
                    by (nonlinear_arith)
                    requires
                        s_r >= 1,
                        lp_tokens < supply,
                ;
                lemma_div_below((t_r as int) * (lp_tokens as int), supply as int, t_r as int);
                lemma_div_below((s_r as int) * (lp_tokens as int), supply as int, s_r as int);
            } else {
                lemma_div_exact(t_r as int, supply as int);
                lemma_div_exact(s_r as int, supply as int);
            }
        }
        self.token_reserve = t_r - out_t;
        self.sol_reserve = s_r - out_s;
        self.lp_supply = supply - lp_tokens;
        Ok(LiquidityRemoved { token_out: out_t, sol_out: out_s })
    }
}

} // verus!
