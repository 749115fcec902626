//! One adaptive step of the Dormand-Prince embedded Runge-Kutta pair of
//! orders 5 and 4, evaluated in fixed-point arithmetic.
//!
//! The tableau's rational coefficients appear as integer numerators over a
//! common denominator per row, so every stage is a single truncating
//! division. The step function's contract mirrors the computation exactly
//! and bounds the rounding drift of the total population by six units.
use vstd::prelude::*;
use vstd::arithmetic::div_mod::lemma_div_pos_is_pos;
use crate::fixed::ONE;
use crate::fixed::fmul;
use crate::fixed::fmul_spec;
use crate::fixed::iabs;
use crate::fixed::iabs128;
use crate::fixed::imax;
use crate::fixed::imax128;
use crate::fixed::lemma_mul_bound;
use crate::fixed::lemma_trunc_div_bound;
use crate::fixed::lemma_trunc_div_sum3;
use crate::fixed::tdiv;
use crate::fixed::trunc_div;
use crate::model::KLIM;
use crate::model::ModelParams;
use crate::model::SIRS;
use crate::model::State;
use crate::model::YLIM;
use crate::model::spec_system;

verus! {

/// Largest step size the controller proposes (one hundred days).
pub const H_MAX: i128 = 100_000_000_000_000;

/// Absolute error tolerance (`10^-5`).
pub const ATOL: i128 = 10_000_000;

/// Relative error tolerance (`10^-5`).
pub const RTOL: i128 = 10_000_000;

/// Bound on every tableau numerator used here.
pub const NUM_LIM: i128 = 2_000_000;

/// Bound on each component of a step-scaled slope `h * k`.
pub const G_LIM: i128 = 5_000_000_000_000_000_000;

/// Bound on each component a stage combination can produce.
pub const RES_LIM: i128 = 100_000_000_000_000_000_000_000_000;

/// Bound on each component of the embedded error estimate.
pub const EC_LIM: i128 = 4_000_000_000_000_000_000;

/// Stage 2 tableau row: `1/5`.
pub const A21: i128 = 1;

/// Common denominator of the stage 2 row.
pub const D2: i128 = 5;

/// Stage 3 tableau row: `3/40, 9/40`.
pub const A31: i128 = 3;

/// Second numerator of the stage 3 row.
pub const A32: i128 = 9;

/// Common denominator of the stage 3 row.
pub const D3: i128 = 40;

/// Stage 4 tableau row: `44/45, -56/15, 32/9`.
pub const A41: i128 = 44;

/// Second numerator of the stage 4 row.
pub const A42: i128 = -168;

/// Third numerator of the stage 4 row.
pub const A43: i128 = 160;

/// Common denominator of the stage 4 row.
pub const D4: i128 = 45;

/// Stage 5 tableau row: `19372/6561, -25360/2187, 64448/6561, -212/729`.
pub const A51: i128 = 19372;

/// Second numerator of the stage 5 row.
pub const A52: i128 = -76080;

/// Third numerator of the stage 5 row.
pub const A53: i128 = 64448;

/// Fourth numerator of the stage 5 row.
pub const A54: i128 = -1908;

/// Common denominator of the stage 5 row.
pub const D5: i128 = 6561;

/// Stage 6 tableau row: `9017/3168, -355/33, 46732/5247, 49/176,
/// -5103/18656`.
pub const A61: i128 = 477901;

/// Second numerator of the stage 6 row.
pub const A62: i128 = -1806240;

/// Third numerator of the stage 6 row.
pub const A63: i128 = 1495424;

/// Fourth numerator of the stage 6 row.
pub const A64: i128 = 46746;

/// Fifth numerator of the stage 6 row.
pub const A65: i128 = -45927;

/// Common denominator of the stage 6 row.
pub const D6: i128 = 167904;

/// Fifth-order weights: `35/384, 0, 500/1113, 125/192, -2187/6784, 11/84`.
pub const B1: i128 = 12985;

/// Third numerator of the fifth-order weight row.
pub const B3: i128 = 64000;

/// Fourth numerator of the fifth-order weight row.
pub const B4: i128 = 92750;

/// Fifth numerator of the fifth-order weight row.
pub const B5: i128 = -45927;

/// Sixth numerator of the fifth-order weight row.
pub const B6: i128 = 18656;

/// Common denominator of the fifth-order weight row.
pub const DB: i128 = 142464;

/// Error-estimate weights, the difference of the order-5 and order-4 rows:
/// `71/57600, 0, -71/16695, 71/1920, -17253/339200, 22/525, -1/40`.
pub const E1: i128 = 26341;

/// Third numerator of the error row.
pub const E3: i128 = -90880;

/// Fourth numerator of the error row.
pub const E4: i128 = 790230;

/// Fifth numerator of the error row.
pub const E5: i128 = -1086939;

/// Sixth numerator of the error row.
pub const E6: i128 = 895488;

/// Seventh numerator of the error row.
pub const E7: i128 = -534240;

/// Common denominator of the error row.
pub const DE: i128 = 21369600;

/// The components of a state as a triple of mathematical integers.
pub open spec fn st3(x: State) -> (int, int, int) {
    (x.s as int, x.i as int, x.r as int)
}

/// Weighted sum of seven values.
pub open spec fn spec_dot7(
    n1: int,
    a1: int,
    n2: int,
    a2: int,
    n3: int,
    a3: int,
    n4: int,
    a4: int,
    n5: int,
    a5: int,
    n6: int,
    a6: int,
    n7: int,
    a7: int,
) -> int {
    n1 * a1 + n2 * a2 + n3 * a3 + n4 * a4 + n5 * a5 + n6 * a6 + n7 * a7
}

/// A slope scaled by the step size, componentwise.
pub open spec fn fm3(h: int, k: (int, int, int)) -> (int, int, int) {
    (fmul_spec(h, k.0), fmul_spec(h, k.1), fmul_spec(h, k.2))
}

/// A base state plus a weighted combination of seven scaled slopes over a
/// common denominator, componentwise.
pub open spec fn cmb(
    y: (int, int, int),
    n1: int,
    n2: int,
    n3: int,
    n4: int,
    n5: int,
    n6: int,
    n7: int,
    a1: (int, int, int),
    a2: (int, int, int),
    a3: (int, int, int),
    a4: (int, int, int),
    a5: (int, int, int),
    a6: (int, int, int),
    a7: (int, int, int),
    den: int,
) -> (int, int, int) {
    (
        y.0 + trunc_div(
            spec_dot7(n1, a1.0, n2, a2.0, n3, a3.0, n4, a4.0, n5, a5.0, n6, a6.0, n7, a7.0),
            den,
        ),
        y.1 + trunc_div(
            spec_dot7(n1, a1.1, n2, a2.1, n3, a3.1, n4, a4.1, n5, a5.1, n6, a6.1, n7, a7.1),
            den,
        ),
        y.2 + trunc_div(
            spec_dot7(n1, a1.2, n2, a2.2, n3, a3.2, n4, a4.2, n5, a5.2, n6, a6.2, n7, a7.2),
            den,
        ),
    )
}

/// The zero triple, used to pad unused tableau slots.
pub open spec fn zt() -> (int, int, int) {
    (0, 0, 0)
}

/// Slope at the step's start.
pub open spec fn s_k1(p: ModelParams, y: (int, int, int)) -> (int, int, int) {
    spec_system(p, y)
}

/// Scaled slope 1.
#[verifier::opaque]
pub open spec fn s_g1(p: ModelParams, y: (int, int, int), h: int) -> (int, int, int) {
    fm3(h, s_k1(p, y))
}

/// Stage 2 state.
#[verifier::opaque]
pub open spec fn s_y2(p: ModelParams, y: (int, int, int), h: int) -> (int, int, int) {
    cmb(
        y,
        A21 as int,
        0,
        0,
        0,
        0,
        0,
        0,
        s_g1(p, y, h),
        zt(),
        zt(),
        zt(),
        zt(),
        zt(),
        zt(),
        D2 as int,
    )
}

/// Scaled slope 2.
#[verifier::opaque]
pub open spec fn s_g2(p: ModelParams, y: (int, int, int), h: int) -> (int, int, int) {
    fm3(h, spec_system(p, s_y2(p, y, h)))
}

/// Stage 3 state.
#[verifier::opaque]
pub open spec fn s_y3(p: ModelParams, y: (int, int, int), h: int) -> (int, int, int) {
    cmb(
        y,
        A31 as int,
        A32 as int,
        0,
        0,
        0,
        0,
        0,
        s_g1(p, y, h),
        s_g2(p, y, h),
        zt(),
        zt(),
        zt(),
        zt(),
        zt(),
        D3 as int,
    )
}

/// Scaled slope 3.
#[verifier::opaque]
pub open spec fn s_g3(p: ModelParams, y: (int, int, int), h: int) -> (int, int, int) {
    fm3(h, spec_system(p, s_y3(p, y, h)))
}

/// Stage 4 state.
#[verifier::opaque]
pub open spec fn s_y4(p: ModelParams, y: (int, int, int), h: int) -> (int, int, int) {
    cmb(
        y,
        A41 as int,
        A42 as int,
        A43 as int,
        0,
        0,
        0,
        0,
        s_g1(p, y, h),
        s_g2(p, y, h),
        s_g3(p, y, h),
        zt(),
        zt(),
        zt(),
        zt(),
        D4 as int,
    )
}

/// Scaled slope 4.
#[verifier::opaque]
pub open spec fn s_g4(p: ModelParams, y: (int, int, int), h: int) -> (int, int, int) {
    fm3(h, spec_system(p, s_y4(p, y, h)))
}

/// Stage 5 state.
#[verifier::opaque]
pub open spec fn s_y5(p: ModelParams, y: (int, int, int), h: int) -> (int, int, int) {
    cmb(
        y,
        A51 as int,
        A52 as int,
        A53 as int,
        A54 as int,
        0,
        0,
        0,
        s_g1(p, y, h),
        s_g2(p, y, h),
        s_g3(p, y, h),
        s_g4(p, y, h),
        zt(),
        zt(),
        zt(),
        D5 as int,
    )
}

/// Scaled slope 5.
#[verifier::opaque]
pub open spec fn s_g5(p: ModelParams, y: (int, int, int), h: int) -> (int, int, int) {
    fm3(h, spec_system(p, s_y5(p, y, h)))
}

/// Stage 6 state.
#[verifier::opaque]
pub open spec fn s_y6(p: ModelParams, y: (int, int, int), h: int) -> (int, int, int) {
    cmb(
        y,
        A61 as int,
        A62 as int,
        A63 as int,
        A64 as int,
        A65 as int,
        0,
        0,
        s_g1(p, y, h),
        s_g2(p, y, h),
        s_g3(p, y, h),
        s_g4(p, y, h),
        s_g5(p, y, h),
        zt(),
        zt(),
        D6 as int,
    )
}

/// Scaled slope 6.
#[verifier::opaque]
pub open spec fn s_g6(p: ModelParams, y: (int, int, int), h: int) -> (int, int, int) {
    fm3(h, spec_system(p, s_y6(p, y, h)))
}

/// The accepted fifth-order solution after one step of size `h`.
#[verifier::opaque]
pub open spec fn s_ynew(p: ModelParams, y: (int, int, int), h: int) -> (int, int, int) {
    cmb(
        y,
        B1 as int,
        0,
        B3 as int,
        B4 as int,
        B5 as int,
        B6 as int,
        0,
        s_g1(p, y, h),
        s_g2(p, y, h),
        s_g3(p, y, h),
        s_g4(p, y, h),
        s_g5(p, y, h),
        s_g6(p, y, h),
        zt(),
        DB as int,
    )
}

/// Scaled slope 7, evaluated at the new state.
#[verifier::opaque]
pub open spec fn s_g7(p: ModelParams, y: (int, int, int), h: int) -> (int, int, int) {
    fm3(h, spec_system(p, s_ynew(p, y, h)))
}

/// The embedded error estimate: the difference between the order-5 and
/// order-4 solutions, componentwise.
#[verifier::opaque]
pub open spec fn s_err(p: ModelParams, y: (int, int, int), h: int) -> (int, int, int) {
    cmb(
        zt(),
        E1 as int,
        0,
        E3 as int,
        E4 as int,
        E5 as int,
        E6 as int,
        E7 as int,
        s_g1(p, y, h),
        s_g2(p, y, h),
        s_g3(p, y, h),
        s_g4(p, y, h),
        s_g5(p, y, h),
        s_g6(p, y, h),
        s_g7(p, y, h),
        DE as int,
    )
}

/// Error-acceptance scale for one component: the absolute tolerance plus
/// the relative tolerance applied to the larger state magnitude.
pub open spec fn s_scale(a: int, b: int) -> int {
    ATOL + fmul_spec(RTOL as int, imax(iabs(a), iabs(b)))
}

/// The scalar error norm of one step: the largest componentwise ratio of
/// the error estimate to its tolerance scale, in fixed point. A step is
/// acceptable when this is at most `ONE`.
#[verifier::opaque]
pub open spec fn s_errnorm(p: ModelParams, y: (int, int, int), h: int) -> int {
    let e = s_err(p, y, h);
    let yn = s_ynew(p, y, h);
    imax(
        imax(
            trunc_div(iabs(e.0) * ONE, s_scale(y.0, yn.0)),
            trunc_div(iabs(e.1) * ONE, s_scale(y.1, yn.1)),
        ),
        trunc_div(iabs(e.2) * ONE, s_scale(y.2, yn.2)),
    )
}

/// Every component of a triple is within the tracked state range.
pub open spec fn tin_range(t: (int, int, int)) -> bool {
    &&& iabs(t.0) <= YLIM
    &&& iabs(t.1) <= YLIM
    &&& iabs(t.2) <= YLIM
}

/// Whether a step of size `h` from `y` drives some stage state or the
/// resulting state out of the tracked range, so the step cannot be
/// evaluated at this size.
#[verifier::opaque]
pub open spec fn step_blown(p: ModelParams, y: (int, int, int), h: int) -> bool {
    ||| !tin_range(s_y2(p, y, h))
    ||| !tin_range(s_y3(p, y, h))
    ||| !tin_range(s_y4(p, y, h))
    ||| !tin_range(s_y5(p, y, h))
    ||| !tin_range(s_y6(p, y, h))
    ||| !tin_range(s_ynew(p, y, h))
}

/// Every component is within the scaled-slope bound.
pub open spec fn g_in_lim(g: State) -> bool {
    &&& iabs(g.s as int) <= G_LIM
    &&& iabs(g.i as int) <= G_LIM
    &&& iabs(g.r as int) <= G_LIM
}

/// Whether each component is within the tracked state range.
fn in_range_exec(x: &State) -> (b: bool)
    ensures
        b == x.in_range(),
{
    -YLIM <= x.s && x.s <= YLIM && -YLIM <= x.i && x.i <= YLIM && -YLIM <= x.r && x.r <= YLIM
}

/// Weighted sum of seven bounded values.
#[allow(clippy::too_many_arguments)]
fn dot7(
    n1: i128,
    a1: i128,
    n2: i128,
    a2: i128,
    n3: i128,
    a3: i128,
    n4: i128,
    a4: i128,
    n5: i128,
    a5: i128,
    n6: i128,
    a6: i128,
    n7: i128,
    a7: i128,
) -> (r: i128)
    requires
        iabs(n1 as int) <= NUM_LIM,
        iabs(n2 as int) <= NUM_LIM,
        iabs(n3 as int) <= NUM_LIM,
        iabs(n4 as int) <= NUM_LIM,
        iabs(n5 as int) <= NUM_LIM,
        iabs(n6 as int) <= NUM_LIM,
        iabs(n7 as int) <= NUM_LIM,
        iabs(a1 as int) <= G_LIM,
        iabs(a2 as int) <= G_LIM,
        iabs(a3 as int) <= G_LIM,
        iabs(a4 as int) <= G_LIM,
        iabs(a5 as int) <= G_LIM,
        iabs(a6 as int) <= G_LIM,
        iabs(a7 as int) <= G_LIM,
    ensures
        r as int == spec_dot7(
            n1 as int,
            a1 as int,
            n2 as int,
            a2 as int,
            n3 as int,
            a3 as int,
            n4 as int,
            a4 as int,
            n5 as int,
            a5 as int,
            n6 as int,
            a6 as int,
            n7 as int,
            a7 as int,
        ),
        iabs(r as int) <= 7 * (NUM_LIM as int) * (G_LIM as int),
{
    proof {
        lemma_mul_bound(n1 as int, a1 as int, NUM_LIM as int, G_LIM as int);
        lemma_mul_bound(n2 as int, a2 as int, NUM_LIM as int, G_LIM as int);
        lemma_mul_bound(n3 as int, a3 as int, NUM_LIM as int, G_LIM as int);
        lemma_mul_bound(n4 as int, a4 as int, NUM_LIM as int, G_LIM as int);
        lemma_mul_bound(n5 as int, a5 as int, NUM_LIM as int, G_LIM as int);
        lemma_mul_bound(n6 as int, a6 as int, NUM_LIM as int, G_LIM as int);
        lemma_mul_bound(n7 as int, a7 as int, NUM_LIM as int, G_LIM as int);
    }
    n1 * a1 + n2 * a2 + n3 * a3 + n4 * a4 + n5 * a5 + n6 * a6 + n7 * a7
}

/// A base state plus a weighted combination of seven scaled slopes over a
/// common denominator.
#[allow(clippy::too_many_arguments)]
fn combine(
    y: &State,
    g1: &State,
    g2: &State,
    g3: &State,
    g4: &State,
    g5: &State,
    g6: &State,
    g7: &State,
    n1: i128,
    n2: i128,
    n3: i128,
    n4: i128,
    n5: i128,
    n6: i128,
    n7: i128,
    den: i128,
) -> (r: State)
    requires
        iabs(y.s as int) <= YLIM,
        iabs(y.i as int) <= YLIM,
        iabs(y.r as int) <= YLIM,
        g_in_lim(*g1),
        g_in_lim(*g2),
        g_in_lim(*g3),
        g_in_lim(*g4),
        g_in_lim(*g5),
        g_in_lim(*g6),
        g_in_lim(*g7),
        iabs(n1 as int) <= NUM_LIM,
        iabs(n2 as int) <= NUM_LIM,
        iabs(n3 as int) <= NUM_LIM,
        iabs(n4 as int) <= NUM_LIM,
        iabs(n5 as int) <= NUM_LIM,
        iabs(n6 as int) <= NUM_LIM,
        iabs(n7 as int) <= NUM_LIM,
        0 < den,
    ensures
        st3(r) == cmb(
            st3(*y),
            n1 as int,
            n2 as int,
            n3 as int,
            n4 as int,
            n5 as int,
            n6 as int,
            n7 as int,
            st3(*g1),
            st3(*g2),
            st3(*g3),
            st3(*g4),
            st3(*g5),
            st3(*g6),
            st3(*g7),
            den as int,
        ),
        iabs(r.s as int) <= RES_LIM,
        iabs(r.i as int) <= RES_LIM,
        iabs(r.r as int) <= RES_LIM,
        (den as int) * iabs(r.s as int - y.s as int) <= 7 * (NUM_LIM as int) * (G_LIM as int) + den
            - 1,
        (den as int) * iabs(r.i as int - y.i as int) <= 7 * (NUM_LIM as int) * (G_LIM as int) + den
            - 1,
        (den as int) * iabs(r.r as int - y.r as int) <= 7 * (NUM_LIM as int) * (G_LIM as int) + den
            - 1,
{
    let ds = dot7(n1, g1.s, n2, g2.s, n3, g3.s, n4, g4.s, n5, g5.s, n6, g6.s, n7, g7.s);
    let di = dot7(n1, g1.i, n2, g2.i, n3, g3.i, n4, g4.i, n5, g5.i, n6, g6.i, n7, g7.i);
    let dr = dot7(n1, g1.r, n2, g2.r, n3, g3.r, n4, g4.r, n5, g5.r, n6, g6.r, n7, g7.r);
    proof {
        lemma_trunc_div_bound(ds as int, den as int);
        lemma_trunc_div_bound(di as int, den as int);
        lemma_trunc_div_bound(dr as int, den as int);
    }
    let qs = tdiv(ds, den);
    let qi = tdiv(di, den);
    let qr = tdiv(dr, den);
    State { s: y.s + qs, i: y.i + qi, r: y.r + qr }
}

/// A slope multiplied by the step size, componentwise; preserves a zero
/// component sum up to two units of rounding.
fn scale_g(h: i128, k: &State) -> (g: State)
    requires
        0 < h <= H_MAX,
        iabs(k.s as int) <= KLIM,
        iabs(k.i as int) <= KLIM,
        iabs(k.r as int) <= KLIM,
        k.s as int + k.i as int + k.r as int == 0,
    ensures
        st3(g) == fm3(h as int, st3(*k)),
        g_in_lim(g),
        iabs(g.s as int + g.i as int + g.r as int) <= 2,
{
    proof {
        lemma_mul_bound(h as int, k.s as int, H_MAX as int, KLIM as int);
        lemma_mul_bound(h as int, k.i as int, H_MAX as int, KLIM as int);
        lemma_mul_bound(h as int, k.r as int, H_MAX as int, KLIM as int);
        assert((h as int) * (k.s as int) + (h as int) * (k.i as int) + (h as int) * (k.r as int)
            == (h as int) * (k.s as int + k.i as int + k.r as int)) by (nonlinear_arith);
        lemma_trunc_div_sum3(
            (h as int) * (k.s as int),
            (h as int) * (k.i as int),
            (h as int) * (k.r as int),
            ONE as int,
            0,
        );
    }
    State { s: fmul(h, k.s), i: fmul(h, k.i), r: fmul(h, k.r) }
}

/// Evaluates the first three stages of one Dormand-Prince step of size
/// `h` from `y`, producing the scaled slopes, each equal to its
/// specification mirror. `None` reports that a stage left the tracked
/// range.
#[verifier::rlimit(100)]
fn rk_stages_a(sys: &SIRS, y: &State, h: i128) -> (res: Option<(State, State, State)>)
    requires
        sys.params.wf(),
        y.in_range(),
        0 < h <= H_MAX,
    ensures
        match res {
            Some(t) => {
                &&& st3(t.0) == s_g1(sys.params, st3(*y), h as int)
                &&& st3(t.1) == s_g2(sys.params, st3(*y), h as int)
                &&& st3(t.2) == s_g3(sys.params, st3(*y), h as int)
                &&& g_in_lim(t.0) && g_in_lim(t.1) && g_in_lim(t.2)
                &&& iabs(t.0.total()) <= 2 && iabs(t.1.total()) <= 2 && iabs(t.2.total()) <= 2
                &&& tin_range(s_y2(sys.params, st3(*y), h as int))
                &&& tin_range(s_y3(sys.params, st3(*y), h as int))
            },
            None => step_blown(sys.params, st3(*y), h as int),
        },
{
    let ghost p = sys.params;
    let ghost yt = st3(*y);
    let zero = State { s: 0, i: 0, r: 0 };
    let k1 = sys.system(y);
    let g1 = scale_g(h, &k1);
    proof {
        reveal(crate::rk::s_g1);
        assert(st3(g1) == s_g1(p, yt, h as int));
    }
    let y2 = combine(y, &g1, &zero, &zero, &zero, &zero, &zero, &zero, A21, 0, 0, 0, 0, 0, 0, D2);
    proof {
        reveal(crate::rk::s_y2);
        assert(st3(y2) == s_y2(p, yt, h as int));
    }
    if !in_range_exec(&y2) {
        proof {
            reveal(crate::rk::step_blown);
            assert(step_blown(p, yt, h as int));
        }
        return None;
    }
    let k2 = sys.system(&y2);
    let g2 = scale_g(h, &k2);
    proof {
        reveal(crate::rk::s_g2);
        assert(st3(g2) == s_g2(p, yt, h as int));
    }
    let y3 = combine(y, &g1, &g2, &zero, &zero, &zero, &zero, &zero, A31, A32, 0, 0, 0, 0, 0, D3);
    proof {
        reveal(crate::rk::s_y3);
        assert(st3(y3) == s_y3(p, yt, h as int));
    }
    if !in_range_exec(&y3) {
        proof {
            reveal(crate::rk::step_blown);
            assert(step_blown(p, yt, h as int));
        }
        return None;
    }
    let k3 = sys.system(&y3);
    let g3 = scale_g(h, &k3);
    proof {
        reveal(crate::rk::s_g3);
        assert(st3(g3) == s_g3(p, yt, h as int));
    }
    Some((g1, g2, g3))
}

/// Evaluates the last three stages of one Dormand-Prince step and the
/// fifth-order solution, given the first three scaled slopes. `None`
/// reports that a stage left the tracked range.
#[verifier::rlimit(100)]
fn rk_stages_b(
    sys: &SIRS,
    y: &State,
    h: i128,
    g1: &State,
    g2: &State,
    g3: &State,
) -> (res: Option<(State, State, State, State)>)
    requires
        sys.params.wf(),
        y.in_range(),
        0 < h <= H_MAX,
        g_in_lim(*g1),
        g_in_lim(*g2),
        g_in_lim(*g3),
        st3(*g1) == s_g1(sys.params, st3(*y), h as int),
        st3(*g2) == s_g2(sys.params, st3(*y), h as int),
        st3(*g3) == s_g3(sys.params, st3(*y), h as int),
    ensures
        match res {
            Some(t) => {
                &&& st3(t.0) == s_g4(sys.params, st3(*y), h as int)
                &&& st3(t.1) == s_g5(sys.params, st3(*y), h as int)
                &&& st3(t.2) == s_g6(sys.params, st3(*y), h as int)
                &&& st3(t.3) == s_ynew(sys.params, st3(*y), h as int)
                &&& g_in_lim(t.0) && g_in_lim(t.1) && g_in_lim(t.2)
                &&& iabs(t.0.total()) <= 2 && iabs(t.1.total()) <= 2 && iabs(t.2.total()) <= 2
                &&& t.3.in_range()
                &&& tin_range(s_y4(sys.params, st3(*y), h as int))
                &&& tin_range(s_y5(sys.params, st3(*y), h as int))
                &&& tin_range(s_y6(sys.params, st3(*y), h as int))
                &&& tin_range(s_ynew(sys.params, st3(*y), h as int))
            },
            None => step_blown(sys.params, st3(*y), h as int),
        },
{
    let ghost p = sys.params;
    let ghost yt = st3(*y);
    let zero = State { s: 0, i: 0, r: 0 };
    let y4 = combine(y, g1, g2, g3, &zero, &zero, &zero, &zero, A41, A42, A43, 0, 0, 0, 0, D4);
    proof {
        reveal(crate::rk::s_y4);
        assert(st3(y4) == s_y4(p, yt, h as int));
    }
    if !in_range_exec(&y4) {
        proof {
            reveal(crate::rk::step_blown);
            assert(step_blown(p, yt, h as int));
        }
        return None;
    }
    let k4 = sys.system(&y4);
    let g4 = scale_g(h, &k4);
    proof {
        reveal(crate::rk::s_g4);
        assert(st3(g4) == s_g4(p, yt, h as int));
    }
    let y5 = combine(y, g1, g2, g3, &g4, &zero, &zero, &zero, A51, A52, A53, A54, 0, 0, 0, D5);
    proof {
        reveal(crate::rk::s_y5);
        assert(st3(y5) == s_y5(p, yt, h as int));
    }
    if !in_range_exec(&y5) {
        proof {
            reveal(crate::rk::step_blown);
            assert(step_blown(p, yt, h as int));
        }
        return None;
    }
    let k5 = sys.system(&y5);
    let g5 = scale_g(h, &k5);
    proof {
        reveal(crate::rk::s_g5);
        assert(st3(g5) == s_g5(p, yt, h as int));
    }
    let y6 = combine(y, g1, g2, g3, &g4, &g5, &zero, &zero, A61, A62, A63, A64, A65, 0, 0, D6);
    proof {
        reveal(crate::rk::s_y6);
        assert(st3(y6) == s_y6(p, yt, h as int));
    }
    if !in_range_exec(&y6) {
        proof {
            reveal(crate::rk::step_blown);
            assert(step_blown(p, yt, h as int));
        }
        return None;
    }
    let k6 = sys.system(&y6);
    let g6 = scale_g(h, &k6);
    proof {
        reveal(crate::rk::s_g6);
        assert(st3(g6) == s_g6(p, yt, h as int));
    }
    let yn = combine(y, g1, g2, g3, &g4, &g5, &g6, &zero, B1, 0, B3, B4, B5, B6, 0, DB);
    proof {
        reveal(crate::rk::s_ynew);
        assert(st3(yn) == s_ynew(p, yt, h as int));
    }
    if !in_range_exec(&yn) {
        proof {
            reveal(crate::rk::step_blown);
            assert(step_blown(p, yt, h as int));
        }
        return None;
    }
    Some((g4, g5, g6, yn))
}

/// The fifth-order update changes the total population by at most six
/// units: each scaled slope sums to nearly zero, and the three truncating
/// divisions of the weight row lose at most one unit each.
proof fn lemma_update_conserves(
    y: (int, int, int),
    yn: (int, int, int),
    a1: (int, int, int),
    a2: (int, int, int),
    a3: (int, int, int),
    a4: (int, int, int),
    a5: (int, int, int),
    a6: (int, int, int),
)
    requires
        yn == cmb(
            y,
            B1 as int,
            0,
            B3 as int,
            B4 as int,
            B5 as int,
            B6 as int,
            0,
            a1,
            a2,
            a3,
            a4,
            a5,
            a6,
            zt(),
            DB as int,
        ),
        iabs(a1.0 + a1.1 + a1.2) <= 2,
        iabs(a2.0 + a2.1 + a2.2) <= 2,
        iabs(a3.0 + a3.1 + a3.2) <= 2,
        iabs(a4.0 + a4.1 + a4.2) <= 2,
        iabs(a5.0 + a5.1 + a5.2) <= 2,
        iabs(a6.0 + a6.1 + a6.2) <= 2,
    ensures
        iabs((yn.0 + yn.1 + yn.2) - (y.0 + y.1 + y.2)) <= 6,
{
    let v0 = spec_dot7(
        B1 as int,
        a1.0,
        0,
        a2.0,
        B3 as int,
        a3.0,
        B4 as int,
        a4.0,
        B5 as int,
        a5.0,
        B6 as int,
        a6.0,
        0,
        0,
    );
    let v1 = spec_dot7(
        B1 as int,
        a1.1,
        0,
        a2.1,
        B3 as int,
        a3.1,
        B4 as int,
        a4.1,
        B5 as int,
        a5.1,
        B6 as int,
        a6.1,
        0,
        0,
    );
    let v2 = spec_dot7(
        B1 as int,
        a1.2,
        0,
        a2.2,
        B3 as int,
        a3.2,
        B4 as int,
        a4.2,
        B5 as int,
        a5.2,
        B6 as int,
        a6.2,
        0,
        0,
    );
    assert(iabs(v0 + v1 + v2) <= 468636);
    lemma_trunc_div_sum3(v0, v1, v2, DB as int, 468636);
}

/// Evaluates one Dormand-Prince step of size `h` from `y`.
///
/// `Some((yn, en))` carries the fifth-order solution and the fixed-point
/// error norm, both equal to their specification mirrors; the solution is
/// within range and moves the total population by at most six units. `None`
/// reports that an intermediate state left the tracked range, so the step
/// cannot be taken at this size.
pub fn rk_step(sys: &SIRS, y: &State, h: i128) -> (res: Option<(State, i128)>)
    requires
        sys.params.wf(),
        y.in_range(),
        0 < h <= H_MAX,
    ensures
        match res {
            Some((yn, en)) => {
                &&& st3(yn) == s_ynew(sys.params, st3(*y), h as int)
                &&& en as int == s_errnorm(sys.params, st3(*y), h as int)
                &&& 0 <= en
                &&& yn.in_range()
                &&& iabs(yn.total() - y.total()) <= 6
                &&& !step_blown(sys.params, st3(*y), h as int)
            },
            None => step_blown(sys.params, st3(*y), h as int),
        },
{
    match rk_stages_a(sys, y, h) {
        None => None,
        Some((g1, g2, g3)) => {
            match rk_stages_b(sys, y, h, &g1, &g2, &g3) {
                None => None,
                Some((g4, g5, g6, yn)) => {
                    proof {
                        reveal(crate::rk::step_blown);
                        assert(!step_blown(sys.params, st3(*y), h as int));
                        reveal(crate::rk::s_ynew);
                        lemma_update_conserves(
                            st3(*y),
                            st3(yn),
                            st3(g1),
                            st3(g2),
                            st3(g3),
                            st3(g4),
                            st3(g5),
                            st3(g6),
                        );
                    }
                    let en = step_error(sys, y, h, &yn, &g1, &g2, &g3, &g4, &g5, &g6);
                    Some((yn, en))
                },
            }
        },
    }
}

/// Evaluates the embedded error estimate and its scalar norm for a step
/// whose first six scaled slopes and accepted state are already known to
/// match their specification mirrors.
#[verifier::rlimit(100)]
#[allow(clippy::too_many_arguments)]
fn step_error(
    sys: &SIRS,
    y: &State,
    h: i128,
    yn: &State,
    g1: &State,
    g2: &State,
    g3: &State,
    g4: &State,
    g5: &State,
    g6: &State,
) -> (en: i128)
    requires
        sys.params.wf(),
        y.in_range(),
        yn.in_range(),
        0 < h <= H_MAX,
        g_in_lim(*g1),
        g_in_lim(*g2),
        g_in_lim(*g3),
        g_in_lim(*g4),
        g_in_lim(*g5),
        g_in_lim(*g6),
        st3(*g1) == s_g1(sys.params, st3(*y), h as int),
        st3(*g2) == s_g2(sys.params, st3(*y), h as int),
        st3(*g3) == s_g3(sys.params, st3(*y), h as int),
        st3(*g4) == s_g4(sys.params, st3(*y), h as int),
        st3(*g5) == s_g5(sys.params, st3(*y), h as int),
        st3(*g6) == s_g6(sys.params, st3(*y), h as int),
        st3(*yn) == s_ynew(sys.params, st3(*y), h as int),
    ensures
        en as int == s_errnorm(sys.params, st3(*y), h as int),
        0 <= en,
{
    let ghost p = sys.params;
    let ghost yt = st3(*y);
    let zero = State { s: 0, i: 0, r: 0 };
    let k7 = sys.system(yn);
    let g7 = scale_g(h, &k7);
    proof {
        reveal(crate::rk::s_g7);
        assert(st3(g7) == s_g7(p, yt, h as int));
    }
    let e = combine(&zero, g1, g2, g3, g4, g5, g6, &g7, E1, 0, E3, E4, E5, E6, E7, DE);
    proof {
        reveal(crate::rk::s_err);
        assert(st3(e) == s_err(p, yt, h as int));
        assert(iabs(e.s as int) <= EC_LIM);
        assert(iabs(e.i as int) <= EC_LIM);
        assert(iabs(e.r as int) <= EC_LIM);
    }
    let es = iabs128(e.s) * ONE;
    let ei = iabs128(e.i) * ONE;
    let er = iabs128(e.r) * ONE;
    let scs = err_scale(y.s, yn.s);
    let sci = err_scale(y.i, yn.i);
    let scr = err_scale(y.r, yn.r);
    proof {
        lemma_div_pos_is_pos(es as int, scs as int);
        lemma_div_pos_is_pos(ei as int, sci as int);
        lemma_div_pos_is_pos(er as int, scr as int);
    }
    let rs = tdiv(es, scs);
    let ri = tdiv(ei, sci);
    let rr = tdiv(er, scr);
    let en = imax128(imax128(rs, ri), rr);
    proof {
        reveal(crate::rk::s_errnorm);
        assert(en as int == s_errnorm(p, yt, h as int));
    }
    en
}

/// Error-acceptance scale for one component.
fn err_scale(a: i128, b: i128) -> (r: i128)
    requires
        iabs(a as int) <= RES_LIM,
        iabs(b as int) <= RES_LIM,
    ensures
        r as int == s_scale(a as int, b as int),
        0 < r,
{
    let aa = iabs128(a);
    let ab = iabs128(b);
    let mx = imax128(aa, ab);
    proof {
        lemma_mul_bound(RTOL as int, mx as int, RTOL as int, RES_LIM as int);
        lemma_div_pos_is_pos((RTOL as int) * (mx as int), ONE as int);
    }
    ATOL + fmul(RTOL, mx)
}

} // verus!
