//! Laws relating several operations. Properties of a single operation — the
//! genesis supply, value monotonicity of swaps, slippage and drain
//! protection, the fee cap — are stated directly in that operation's
//! contract; what stands here relates a deposit to the withdrawal that
//! undoes it.

use vstd::prelude::*;

use crate::liquidity::{
    final_sol_amount, final_token_amount, lp_tokens_minted, withdrawal_amount,
};
use crate::math::{
    lemma_div_exact, lemma_div_mul_le, lemma_div_ordered, lemma_mul_div_nonneg, lemma_sqrt_floor,
    lemma_sqrt_floor_pos,
};
use crate::pool::LiquidityPool;

verus! {

/// Round-trip bound: depositing liquidity into a well-formed pool and
/// immediately redeeming exactly the shares that deposit minted returns at
/// most what was deposited, on each leg. Integer rounding can lose dust to
/// the pool, never take from it.
///
/// `ft`, `fs` and `minted` are what `add_liquidity` moves and mints for the
/// request `(token_amount, sol_amount)`; the conclusion bounds what
/// `remove_liquidity(minted, ..)` then pays out of the grown pool. The one
/// assumption beyond well-formedness is that shares are outstanding after
/// the deposit, without which there is nothing to redeem.
pub proof fn lemma_round_trip_no_gain(pool: LiquidityPool, token_amount: u64, sol_amount: u64)
    requires
        pool.wf(),
        pool.lp_supply as int + lp_tokens_minted(
            pool.token_reserve as int,
            pool.sol_reserve as int,
            pool.lp_supply as int,
            final_token_amount(
                pool.token_reserve as int,
                pool.sol_reserve as int,
                token_amount as int,
                sol_amount as int,
            ),
            final_sol_amount(
                pool.token_reserve as int,
                pool.sol_reserve as int,
                token_amount as int,
                sol_amount as int,
            ),
        ) > 0,
    ensures
        ({
            let t_r = pool.token_reserve as int;
            let s_r = pool.sol_reserve as int;
            let supply = pool.lp_supply as int;
            let ft = final_token_amount(t_r, s_r, token_amount as int, sol_amount as int);
            let fs = final_sol_amount(t_r, s_r, token_amount as int, sol_amount as int);
            let minted = lp_tokens_minted(t_r, s_r, supply, ft, fs);
            &&& withdrawal_amount(t_r + ft, minted, supply + minted) <= ft
            &&& withdrawal_amount(s_r + fs, minted, supply + minted) <= fs
        }),
{
    let t_r = pool.token_reserve as int;
    let s_r = pool.sol_reserve as int;
    let supply = pool.lp_supply as int;
    let ft = final_token_amount(t_r, s_r, token_amount as int, sol_amount as int);
    let fs = final_sol_amount(t_r, s_r, token_amount as int, sol_amount as int);
    let minted = lp_tokens_minted(t_r, s_r, supply, ft, fs);

    if t_r > 0 {
        lemma_mul_div_nonneg(token_amount as int, s_r, t_r);
    }
    if s_r > 0 {
        lemma_mul_div_nonneg(sol_amount as int, t_r, s_r);
    }
    assert(0 <= ft);
    assert(0 <= fs);

    if supply == 0 {
        // A fresh supply mints the geometric mean; it is positive here, so
        // both deposit legs are positive, which in a well-formed pool with
        // no shares forces both reserves to be empty.
        lemma_sqrt_floor(ft * fs);
        lemma_sqrt_floor_pos(ft * fs);
        assert(minted > 0);
        assert(ft >= 1 && fs >= 1) by (nonlinear_arith)
            requires
                ft * fs >= 1,
                0 <= ft,
                0 <= fs,
        ;
        if t_r > 0 {
            assert((token_amount as int) * s_r / t_r == 0) by (nonlinear_arith)
                requires
                    s_r == 0,
                    t_r >= 1,
                    token_amount >= 0,
            ;
        }
        if s_r > 0 {
            assert((sol_amount as int) * t_r / s_r == 0) by (nonlinear_arith)
                requires
                    t_r == 0,
                    s_r >= 1,
                    sol_amount >= 0,
            ;
        }
        assert(t_r == 0 && s_r == 0);
        lemma_div_exact(ft, minted);
        lemma_div_exact(fs, minted);
    } else {
        // With an existing supply, the minimum-ratio rule keeps the claim
        // `minted / (supply + minted)` of the grown reserve within the
        // deposit on each leg.
        let by_token = ft * supply / t_r;
        let by_sol = fs * supply / s_r;
        lemma_mul_div_nonneg(ft, supply, t_r);
        lemma_mul_div_nonneg(fs, supply, s_r);
        assert(0 <= minted);

        lemma_div_mul_le(ft * supply, t_r);
        lemma_div_mul_le(fs * supply, s_r);
        assert(minted * t_r <= ft * supply) by (nonlinear_arith)
            requires
                0 <= minted <= by_token,
                by_token * t_r <= ft * supply,
                0 < t_r,
                by_token == ft * supply / t_r,
        ;
        assert(minted * s_r <= fs * supply) by (nonlinear_arith)
            requires
                0 <= minted <= by_sol,
                by_sol * s_r <= fs * supply,
                0 < s_r,
                by_sol == fs * supply / s_r,
        ;

        assert((t_r + ft) * minted <= ft * (supply + minted)) by (nonlinear_arith)
            requires
                minted * t_r <= ft * supply,
                0 <= minted,
                0 <= ft,
        ;
        assert((s_r + fs) * minted <= fs * (supply + minted)) by (nonlinear_arith)
            requires
                minted * s_r <= fs * supply,
                0 <= minted,
                0 <= fs,
        ;
        assert(0 <= (t_r + ft) * minted) by (nonlinear_arith)
            requires
                0 <= t_r + ft,
                0 <= minted,
        ;
        assert(0 <= (s_r + fs) * minted) by (nonlinear_arith)
            requires
                0 <= s_r + fs,
                0 <= minted,
        ;
        lemma_div_ordered((t_r + ft) * minted, ft * (supply + minted), supply + minted);
        lemma_div_ordered((s_r + fs) * minted, fs * (supply + minted), supply + minted);
        lemma_div_exact(ft, supply + minted);
        lemma_div_exact(fs, supply + minted);
    }
}

} // verus!
