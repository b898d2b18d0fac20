//! Exact integer arithmetic shared by the exchange operations: the integer
//! square root used to mint the genesis liquidity supply, and the
//! multiply-then-divide primitive behind every quote.

use vstd::prelude::*;

verus! {

/// Fee rates are expressed in basis points: units of 1/10000.
pub const BASIS_POINTS: u64 = 10000;

/// Holds exactly when `r` is the integer square root of `x`: the largest
/// integer whose square does not exceed `x`.
pub open spec fn is_sqrt_floor(r: int, x: int) -> bool {
    &&& 0 <= r
    &&& r * r <= x
    &&& x < (r + 1) * (r + 1)
}

/// The integer square root of `x`: the real square root rounded down.
/// Well defined for `x >= 0` by `lemma_sqrt_floor` and `lemma_sqrt_floor_unique`.
pub open spec fn sqrt_floor(x: int) -> int {
    choose|r: int| is_sqrt_floor(r, x)
}

/// At most one integer satisfies the square-root characterisation.
pub proof fn lemma_sqrt_floor_unique(r1: int, r2: int, x: int)
    by (nonlinear_arith)
    requires
        0 <= r1,
        r1 * r1 <= x,
        x < (r1 + 1) * (r1 + 1),
        0 <= r2,
        r2 * r2 <= x,
        x < (r2 + 1) * (r2 + 1),
    ensures
        r1 == r2,
{
}

/// Every non-negative integer has an integer square root, and `sqrt_floor`
/// denotes it.
pub proof fn lemma_sqrt_floor(x: int)
    requires
        0 <= x,
    ensures
        is_sqrt_floor(sqrt_floor(x), x),
    decreases x,
{
    if x == 0 {
        assert(is_sqrt_floor(0, 0));
    } else {
        lemma_sqrt_floor(x - 1);
        let r = sqrt_floor(x - 1);
        if x < (r + 1) * (r + 1) {
            assert(is_sqrt_floor(r, x));
        } else {
            assert(is_sqrt_floor(r + 1, x)) by (nonlinear_arith)
                requires
                    0 <= r,
                    r * r <= x - 1,
                    x - 1 < (r + 1) * (r + 1),
                    (r + 1) * (r + 1) <= x,
            ;
        }
    }
}

/// The integer square root is positive exactly when the radicand is.
pub proof fn lemma_sqrt_floor_pos(x: int)
    requires
        0 <= x,
    ensures
        sqrt_floor(x) > 0 <==> x >= 1,
{
    lemma_sqrt_floor(x);
    let r = sqrt_floor(x);
    if r == 0 {
        assert(x < 1) by (nonlinear_arith)
            requires
                r == 0,
                x < (r + 1) * (r + 1),
        ;
    } else {
        assert(x >= 1) by (nonlinear_arith)
            requires
                r >= 1,
                r * r <= x,
        ;
    }
}

/// The product of two values that each fit in 64 bits fits in 128 bits.
pub proof fn lemma_u64_mul_fits(a: int, b: int)
    by (nonlinear_arith)
    requires
        0 <= a <= u64::MAX,
        0 <= b <= u64::MAX,
    ensures
        0 <= a * b <= u64::MAX as int * u64::MAX as int,
        a * b <= u128::MAX,
{
}

/// A product of non-negative values divided by a positive value is
/// non-negative.
pub proof fn lemma_mul_div_nonneg(a: int, b: int, d: int)
    by (nonlinear_arith)
    requires
        0 <= a,
        0 <= b,
        0 < d,
    ensures
        0 <= a * b / d,
{
}

/// Dividing by at least one cannot grow a non-negative value.
pub proof fn lemma_div_le_self(x: int, d: int)
    by (nonlinear_arith)
    requires
        0 <= x,
        1 <= d,
    ensures
        0 <= x / d <= x,
{
}

/// Dividing a product by a divisor no smaller than one factor cannot exceed
/// the other factor.
pub proof fn lemma_mul_div_upper(a: int, b: int, d: int)
    by (nonlinear_arith)
    requires
        0 <= a,
        0 <= b <= d,
        0 < d,
    ensures
        0 <= a * b / d <= a,
{
}

/// The quotient times the divisor is bounded by the dividend (floor division).
pub proof fn lemma_div_mul_le(x: int, d: int)
    by (nonlinear_arith)
    requires
        0 <= x,
        0 < d,
    ensures
        (x / d) * d <= x,
{
}

/// Floor division is strictly below `c` exactly when the dividend is below `c * d`.
pub proof fn lemma_div_below(x: int, d: int, c: int)
    by (nonlinear_arith)
    requires
        0 <= x,
        0 < d,
        x < c * d,
    ensures
        x / d < c,
{
}

/// Dividing an exact multiple returns the multiplier.
pub proof fn lemma_div_exact(c: int, d: int)
    by (nonlinear_arith)
    requires
        0 <= c,
        0 < d,
    ensures
        c * d / d == c,
{
}

/// Floor division is monotone in the dividend.
pub proof fn lemma_div_ordered(x: int, y: int, d: int)
    by (nonlinear_arith)
    requires
        0 <= x <= y,
        0 < d,
    ensures
        x / d <= y / d,
{
}

/// Computes the integer square root of `x`: the largest `r` with `r * r <= x`.
pub fn isqrt(x: u128) -> (r: u64)
    ensures
        r as int == sqrt_floor(x as int),
        is_sqrt_floor(r as int, x as int),
{
    proof {
        lemma_sqrt_floor(x as int);
    }
    let mut lo: u128 = 0;
    let mut hi: u128 = u64::MAX as u128;
    proof {
        assert((hi + 1) * (hi + 1) > u128::MAX) by (nonlinear_arith)
            requires
                hi == u64::MAX,
        ;
    }
    while lo < hi
        invariant
            lo <= hi <= u64::MAX,
            lo * lo <= x,
            x < (hi + 1) * (hi + 1),
        decreases hi - lo,
    {
        let mid: u128 = lo + (hi - lo + 1) / 2;
        proof {
            assert(mid * mid <= u128::MAX) by (nonlinear_arith)
                requires
                    0 <= mid <= u64::MAX,
            ;
        }
        if mid * mid <= x {
            lo = mid;
        } else {
            hi = mid - 1;
        }
    }
    proof {
        lemma_sqrt_floor_unique(lo as int, sqrt_floor(x as int), x as int);
    }
    lo as u64
}

/// Computes `a * b / d` exactly, carrying the product in 128 bits so the
/// multiplication cannot overflow.
pub fn mul_div_floor(a: u64, b: u64, d: u64) -> (q: u128)
    requires
        d > 0,
    ensures
        q as int == (a as int * b as int) / (d as int),
{
    proof {
        lemma_u64_mul_fits(a as int, b as int);
    }
    (a as u128) * (b as u128) / (d as u128)
}

} // verus!
