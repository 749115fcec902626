//! Fixed-point arithmetic on scaled 128-bit integers.
//!
//! A value `v: i128` stands for the real number `v / ONE`, so one unit is
//! `10^-12` of the modelled quantity. All rounding is toward zero, and every
//! operation here carries an exact contract over the mathematical integers.
use vstd::prelude::*;
use vstd::arithmetic::div_mod::lemma_fundamental_div_mod;
use vstd::arithmetic::div_mod::lemma_mod_bound;

verus! {

/// One whole unit of the fixed-point scale (twelve fractional decimal digits).
pub const ONE: i128 = 1_000_000_000_000;

/// Absolute value of a mathematical integer.
pub open spec fn iabs(x: int) -> int {
    if x < 0 {
        -x
    } else {
        x
    }
}

/// The larger of two mathematical integers.
pub open spec fn imax(a: int, b: int) -> int {
    if a < b {
        b
    } else {
        a
    }
}

/// Quotient of `x` by `d` rounded toward zero, as the machine division
/// computes it; meaningful for `d > 0`.
pub open spec fn trunc_div(x: int, d: int) -> int {
    if x >= 0 {
        x / d
    } else {
        -((-x) / d)
    }
}

/// Product of two fixed-point values, rounded toward zero.
pub open spec fn fmul_spec(a: int, b: int) -> int {
    trunc_div(a * b, ONE as int)
}

/// Fifth power of a mathematical integer.
pub open spec fn pow5(x: int) -> int {
    x * x * x * x * x
}

/// A nonnegative factor distributes over the absolute value.
pub proof fn lemma_abs_mul(d: int, q: int)
    requires
        d >= 0,
    ensures
        iabs(d * q) == d * iabs(q),
{
    if q >= 0 {
        assert(d * q >= 0) by (nonlinear_arith)
            requires
                d >= 0,
                q >= 0,
        ;
    } else {
        assert(d * q <= 0) by (nonlinear_arith)
            requires
                d >= 0,
                q <= 0,
        ;
        assert(d * (-q) == -(d * q)) by (nonlinear_arith);
    }
}

/// Multiplying back a truncated quotient loses less than one divisor.
pub proof fn lemma_trunc_div_close(x: int, d: int)
    requires
        d > 0,
    ensures
        iabs(d * trunc_div(x, d) - x) <= d - 1,
{
    if x >= 0 {
        lemma_fundamental_div_mod(x, d);
        lemma_mod_bound(x, d);
    } else {
        lemma_fundamental_div_mod(-x, d);
        lemma_mod_bound(-x, d);
        assert(d * (-((-x) / d)) == -(d * ((-x) / d))) by (nonlinear_arith);
    }
}

/// A truncated quotient is no larger in magnitude than its dividend, and
/// scaling it back up stays within one divisor of the dividend.
pub proof fn lemma_trunc_div_bound(x: int, d: int)
    requires
        d > 0,
    ensures
        d * iabs(trunc_div(x, d)) <= iabs(x) + d - 1,
        iabs(trunc_div(x, d)) <= iabs(x),
{
    let q = trunc_div(x, d);
    lemma_trunc_div_close(x, d);
    lemma_abs_mul(d, q);
    if iabs(q) > iabs(x) {
        assert(d * iabs(q) >= d * (iabs(x) + 1)) by (nonlinear_arith)
            requires
                d > 0,
                iabs(q) >= iabs(x) + 1,
        ;
        assert(d * iabs(x) >= iabs(x)) by (nonlinear_arith)
            requires
                d >= 1,
                iabs(x) >= 0,
        ;
    }
}

/// The magnitude of a product is bounded by the product of the bounds.
pub proof fn lemma_mul_bound(a: int, b: int, la: int, lb: int)
    requires
        iabs(a) <= la,
        iabs(b) <= lb,
    ensures
        iabs(a * b) <= la * lb,
{
    assert(-(la * lb) <= a * b <= la * lb) by (nonlinear_arith)
        requires
            -la <= a <= la,
            -lb <= b <= lb,
    ;
}

/// Three truncated quotients of a near-zero sum still sum near zero: the
/// scaled magnitude of their sum exceeds the bound on the dividends' sum by
/// at most three rounding losses.
pub proof fn lemma_trunc_div_sum3(a: int, b: int, c: int, d: int, e: int)
    requires
        d > 0,
        iabs(a + b + c) <= e,
    ensures
        d * iabs(trunc_div(a, d) + trunc_div(b, d) + trunc_div(c, d)) <= e + 3 * (d - 1),
{
    let ta = trunc_div(a, d);
    let tb = trunc_div(b, d);
    let tc = trunc_div(c, d);
    lemma_trunc_div_close(a, d);
    lemma_trunc_div_close(b, d);
    lemma_trunc_div_close(c, d);
    assert(d * (ta + tb + tc) == d * ta + d * tb + d * tc) by (nonlinear_arith);
    lemma_abs_mul(d, ta + tb + tc);
}

/// Quotient rounded toward zero, exactly as `trunc_div` describes it.
pub fn tdiv(x: i128, d: i128) -> (r: i128)
    requires
        d > 0,
        x > i128::MIN,
    ensures
        r as int == trunc_div(x as int, d as int),
{
    proof {
        lemma_trunc_div_bound(x as int, d as int);
    }
    if x >= 0 {
        let q: u128 = (x as u128) / (d as u128);
        q as i128
    } else {
        let q: u128 = ((-x) as u128) / (d as u128);
        -(q as i128)
    }
}

/// Fixed-point product `a * b / ONE`, rounded toward zero.
pub fn fmul(a: i128, b: i128) -> (r: i128)
    requires
        iabs((a as int) * (b as int)) <= i128::MAX as int,
    ensures
        r as int == fmul_spec(a as int, b as int),
        (ONE as int) * iabs(r as int) <= iabs((a as int) * (b as int)) + ONE - 1,
        iabs(r as int) <= iabs((a as int) * (b as int)),
{
    proof {
        lemma_trunc_div_bound((a as int) * (b as int), ONE as int);
    }
    let p: i128 = a * b;
    tdiv(p, ONE)
}

/// Absolute value of a machine integer.
pub fn iabs128(x: i128) -> (r: i128)
    requires
        x > i128::MIN,
    ensures
        r as int == iabs(x as int),
{
    if x < 0 {
        -x
    } else {
        x
    }
}

/// The larger of two machine integers.
pub fn imax128(a: i128, b: i128) -> (r: i128)
    ensures
        r as int == imax(a as int, b as int),
{
    if a < b {
        b
    } else {
        a
    }
}

/// The integer fifth root of a nonnegative integer: the unique `r >= 0`
/// with `r^5 <= t < (r+1)^5`.
pub open spec fn iroot5_spec(t: int) -> int {
    choose|r: int| 0 <= r && #[trigger] pow5(r) <= t < pow5(r + 1)
}

/// The fifth power is monotone on nonnegative integers.
pub proof fn lemma_pow5_monotone(a: int, b: int)
    requires
        0 <= a <= b,
    ensures
        pow5(a) <= pow5(b),
{
    assert(a * a <= b * b) by (nonlinear_arith)
        requires
            0 <= a <= b,
    ;
    assert((a * a) * (a * a) <= (b * b) * (b * b)) by (nonlinear_arith)
        requires
            0 <= a * a <= b * b,
    ;
    assert(((a * a) * (a * a)) * a <= ((b * b) * (b * b)) * b) by (nonlinear_arith)
        requires
            0 <= (a * a) * (a * a) <= (b * b) * (b * b),
            0 <= a <= b,
    ;
    assert(pow5(a) == ((a * a) * (a * a)) * a) by (nonlinear_arith);
    assert(pow5(b) == ((b * b) * (b * b)) * b) by (nonlinear_arith);
}

/// A nonnegative integer bracketed by consecutive fifth powers is the
/// fifth root.
pub proof fn lemma_iroot5_unique(t: int, r: int)
    requires
        0 <= r,
        pow5(r) <= t,
        t < pow5(r + 1),
    ensures
        iroot5_spec(t) == r,
{
    assert(0 <= r && pow5(r) <= t < pow5(r + 1));
    let w = choose|w: int| 0 <= w && #[trigger] pow5(w) <= t < pow5(w + 1);
    if w < r {
        lemma_pow5_monotone(w + 1, r);
    }
    if r < w {
        lemma_pow5_monotone(r + 1, w);
    }
}

/// Integer fifth root: the largest `r` with `r^5 <= t`.
pub fn iroot5(t: i128) -> (r: i128)
    requires
        0 <= t,
        (t as int) < 1237940039285380274899124224,
    ensures
        0 <= r < 262144,
        pow5(r as int) <= t as int,
        (t as int) < pow5(r as int + 1),
        r as int == iroot5_spec(t as int),
{
    let mut lo: i128 = 0;
    let mut hi: i128 = 262144;
    proof {
        assert(pow5(262144) == 1237940039285380274899124224);
    }
    while lo + 1 < hi
        invariant
            0 <= lo < hi <= 262144,
            pow5(lo as int) <= t as int,
            (t as int) < pow5(hi as int),
            0 <= t,
        decreases hi - lo,
    {
        let mid = lo + tdiv(hi - lo, 2);
        proof {
            lemma_mul_bound(mid as int, mid as int, 262144, 262144);
        }
        let m2 = mid * mid;
        proof {
            lemma_mul_bound(m2 as int, m2 as int, 68719476736, 68719476736);
        }
        let m4 = m2 * m2;
        proof {
            lemma_mul_bound(m4 as int, mid as int, 4722366482869645213696, 262144);
        }
        let p5 = m4 * mid;
        proof {
            assert((m4 as int) * (mid as int) == (mid as int) * (mid as int) * (mid as int)
                * (mid as int) * (mid as int)) by (nonlinear_arith)
                requires
                    m2 as int == (mid as int) * (mid as int),
                    m4 as int == (m2 as int) * (m2 as int),
            ;
            assert(p5 as int == pow5(mid as int));
        }
        if p5 <= t {
            lo = mid;
        } else {
            hi = mid;
        }
    }
    proof {
        lemma_iroot5_unique(t as int, lo as int);
    }
    lo
}

} // verus!
