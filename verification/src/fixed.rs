//! Fixed-point scalar arithmetic.
//!
//! A physical quantity is stored as an `i64` counting millionths of its unit
//! (`SCALE` steps per unit).  Multiplication of two quantities divides the
//! exact integer product by `SCALE`, truncating toward zero, so the result is
//! again in millionths.  The spec functions here give every operation an
//! exact integer meaning that the contracts of the flight model build on.

use vstd::prelude::*;

verus! {

/// Steps per physical unit: one step is a millionth of a metre, radian,
/// newton, and so on.
pub const SCALE: i64 = 1_000_000;

/// One half, in fixed-point steps.
pub const HALF: i64 = 500_000;

/// Magnitude of an integer.
pub open spec fn abs_i(a: int) -> int {
    if a < 0 {
        -a
    } else {
        a
    }
}

/// Fixed-point product: the exact product of the magnitudes, scaled back
/// down by `SCALE` and truncated toward zero, with the sign of the real
/// product.
pub open spec fn fmul(a: int, b: int) -> int {
    let m = (abs_i(a) * abs_i(b)) / (SCALE as int);
    if (a < 0) == (b < 0) {
        m
    } else {
        -m
    }
}

/// Division truncated toward zero, for a positive divisor.
pub open spec fn tdiv(a: int, b: int) -> int {
    if a < 0 {
        -((-a) / b)
    } else {
        a / b
    }
}

/// `v` forced into the interval `[lo, hi]`.
pub open spec fn clip(v: int, lo: int, hi: int) -> int {
    if v < lo {
        lo
    } else if v > hi {
        hi
    } else {
        v
    }
}

/// `r` is the integer square root of `n`: the largest integer whose square
/// does not exceed `n`.
pub open spec fn is_sqrt(n: int, r: int) -> bool {
    0 <= r && r * r <= n && n < (r + 1) * (r + 1)
}

/// The integer square root of a non-negative integer.
pub open spec fn sqrt_i(n: int) -> int {
    choose|r: int| is_sqrt(n, r)
}

pub proof fn lemma_sqrt_exists(n: int)
    requires
        0 <= n,
    ensures
        is_sqrt(n, sqrt_i(n)),
    decreases n,
{
    if n == 0 {
        assert(is_sqrt(0, 0));
    } else {
        lemma_sqrt_exists(n - 1);
        let r = sqrt_i(n - 1);
        if n < (r + 1) * (r + 1) {
            assert(is_sqrt(n, r));
        } else {
            assert(n == (r + 1) * (r + 1));
            assert((r + 1) * (r + 1) < (r + 2) * (r + 2)) by (nonlinear_arith)
                requires 0 <= r;
            assert(is_sqrt(n, r + 1));
        }
    }
}

pub proof fn lemma_sqrt_unique(n: int, r: int)
    requires
        is_sqrt(n, r),
    ensures
        r == sqrt_i(n),
{
    let s = sqrt_i(n);
    assert(is_sqrt(n, s));
    assert(r == s) by (nonlinear_arith)
        requires is_sqrt(n, r), is_sqrt(n, s);
}

/// A product of zero is zero.
pub proof fn lemma_fmul_zero(a: int)
    ensures
        fmul(a, 0) == 0,
        fmul(0, a) == 0,
{
    assert(abs_i(a) * 0 == 0) by (nonlinear_arith);
    assert(0 * abs_i(a) == 0) by (nonlinear_arith);
}

/// Negating one factor negates the fixed-point product exactly.
pub proof fn lemma_fmul_neg(a: int, b: int)
    ensures
        fmul(a, -b) == -fmul(a, b),
        fmul(-a, b) == -fmul(a, b),
{
    assert(abs_i(-b) == abs_i(b));
    assert(abs_i(-a) == abs_i(a));
    if b == 0 || a == 0 {
        assert(abs_i(a) * abs_i(b) == 0) by (nonlinear_arith)
            requires abs_i(a) == 0 || abs_i(b) == 0;
    }
}

/// Scaling by one whole unit is exact.
pub proof fn lemma_fmul_unit(a: int)
    ensures
        fmul(a, SCALE as int) == a,
        fmul(a, -(SCALE as int)) == -a,
{
    assert(abs_i(a) * (SCALE as int) / (SCALE as int) == abs_i(a)) by (nonlinear_arith)
        requires 0 <= abs_i(a);
    lemma_fmul_neg(a, SCALE as int);
}

/// The magnitude of a fixed-point product is bounded by the scaled product
/// of any bounds on the magnitudes of its factors.
pub proof fn lemma_fmul_bound(a: int, b: int, ka: int, kb: int)
    requires
        abs_i(a) <= ka,
        abs_i(b) <= kb,
    ensures
        abs_i(fmul(a, b)) <= ka * kb / (SCALE as int),
{
    assert(abs_i(a) * abs_i(b) <= ka * kb) by (nonlinear_arith)
        requires 0 <= abs_i(a) <= ka, 0 <= abs_i(b) <= kb;
    assert(abs_i(a) * abs_i(b) / (SCALE as int) <= ka * kb / (SCALE as int)) by (nonlinear_arith)
        requires abs_i(a) * abs_i(b) <= ka * kb, 0 <= abs_i(a) * abs_i(b);
}

/// The magnitude of a product is bounded by the product of the bounds.
pub proof fn lemma_mul_abs_bound(a: int, b: int, ka: int, kb: int)
    requires
        abs_i(a) <= ka,
        abs_i(b) <= kb,
    ensures
        abs_i(a * b) <= ka * kb,
{
    assert(abs_i(a * b) <= ka * kb) by (nonlinear_arith)
        requires
            abs_i(a) <= ka,
            abs_i(b) <= kb,
    ;
}

/// Scaling by a proper fraction `y / d` cannot grow a magnitude.
pub proof fn lemma_tdiv_scale_bound(x: int, y: int, d: int)
    requires
        0 <= y < d,
    ensures
        abs_i(tdiv(x * y, d)) <= abs_i(x),
{
    let m = abs_i(x);
    assert(abs_i(x * y) == m * y) by (nonlinear_arith)
        requires
            0 <= y,
            m == abs_i(x),
    ;
    assert(m * y / d <= m) by (nonlinear_arith)
        requires
            0 <= y < d,
            0 <= m,
    ;
    if x * y < 0 {
        assert(tdiv(x * y, d) == -((m * y) / d));
    } else {
        assert(tdiv(x * y, d) == (m * y) / d);
    }
}

/// Fixed-point multiplication.
pub fn fx_mul(a: i64, b: i64) -> (r: i64)
    requires
        i64::MIN <= fmul(a as int, b as int) <= i64::MAX,
    ensures
        r as int == fmul(a as int, b as int),
{
    let neg = (a < 0) != (b < 0);
    let ma: u128 = if a < 0 {
        (-(a as i128)) as u128
    } else {
        a as u128
    };
    let mb: u128 = if b < 0 {
        (-(b as i128)) as u128
    } else {
        b as u128
    };
    assert(ma == abs_i(a as int) && mb == abs_i(b as int));
    assert(ma * mb <= u128::MAX) by (nonlinear_arith)
        requires ma <= i64::MAX as u128 + 1, mb <= i64::MAX as u128 + 1;
    let q = (ma * mb) / (SCALE as u128);
    let s: i128 = if neg {
        -(q as i128)
    } else {
        q as i128
    };
    assert(s == fmul(a as int, b as int));
    s as i64
}

/// Truncating division on wide values, for a positive divisor.
pub fn tdiv_i128(a: i128, b: i128) -> (r: i128)
    requires
        0 < b,
        i128::MIN < a,
    ensures
        r == tdiv(a as int, b as int),
        abs_i(r as int) <= abs_i(a as int),
{
    let m: u128 = if a < 0 {
        (-a) as u128
    } else {
        a as u128
    };
    let q = m / (b as u128);
    assert(q <= m) by (nonlinear_arith)
        requires
            q as int == (m as int) / (b as int),
            1 <= b as int,
            0 <= m as int,
    ;
    assert(q as int == abs_i(a as int) / (b as int));
    if a < 0 {
        let v: i128 = -(q as i128);
        v
    } else {
        q as i128
    }
}

/// Clamp to an interval.
pub fn fx_clamp(v: i64, lo: i64, hi: i64) -> (r: i64)
    requires
        lo <= hi,
    ensures
        r as int == clip(v as int, lo as int, hi as int),
{
    if v < lo {
        lo
    } else if v > hi {
        hi
    } else {
        v
    }
}

/// Integer square root by binary search.
pub fn sqrt_u128(n: u128) -> (r: u64)
    ensures
        is_sqrt(n as int, r as int),
{
    if n == 0 {
        return 0;
    }
    let mut lo: u128 = 0;
    let mut hi: u128 = 0x1_0000_0000_0000_0000;
    assert((hi * hi) > n as int) by (nonlinear_arith)
        requires hi == 0x1_0000_0000_0000_0000u128;
    while hi - lo > 1
        invariant
            0 <= lo < hi <= 0x1_0000_0000_0000_0000u128,
            lo * lo <= n,
            n < hi * hi,
        decreases hi - lo,
    {
        let mid = lo + (hi - lo) / 2;
        assert(lo < mid < hi);
        assert(mid * mid <= u128::MAX) by (nonlinear_arith)
            requires mid < 0x1_0000_0000_0000_0000u128;
        if mid * mid <= n {
            lo = mid;
        } else {
            hi = mid;
        }
    }
    assert(hi == lo + 1);
    assert(is_sqrt(n as int, lo as int));
    lo as u64
}

/// Fixed-point square root of a non-negative quantity: the integer square
/// root of the value rescaled so that the result is again in fixed-point
/// steps.
pub fn fx_sqrt(a: i64) -> (r: i64)
    requires
        0 <= a,
    ensures
        r as int == sqrt_i(a * SCALE),
        0 <= r,
{
    assert((a as u128) * (SCALE as u128) < 0x1_0000_0000_0000_0000_0000_0000u128)
        by (nonlinear_arith)
        requires
            a as u128 <= 0x7fff_ffff_ffff_ffffu128,
            SCALE as u128 == 1_000_000u128;
    let n = (a as u128) * (SCALE as u128);
    let s = sqrt_u128(n);
    assert((s as int) * (s as int) <= n < 0x1_0000_0000_0000_0000_0000_0000int);
    assert(s < 0x1_0000_0000_0000u64) by (nonlinear_arith)
        requires
            (s as int) * (s as int) < 0x1_0000_0000_0000_0000_0000_0000int;
    proof {
        lemma_sqrt_unique(n as int, s as int);
    }
    s as i64
}

} // verus!
