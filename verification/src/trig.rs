//! Fixed-point sine and cosine on micro-radian angles.
//!
//! The sine is a seven-term odd polynomial on the first quadrant, extended to
//! the whole circle by the usual symmetries after a Euclidean reduction of the
//! angle modulo `TAU_FX`. Outputs are micro-units, clamped into `[-FP, FP]`.

use vstd::prelude::*;
use crate::math::{FP, HALF_PI_FX, PI_FX, TAU_FX, spec_clamp, clamp_i64, euclid_mod_i64};

verus! {

/// Largest argument the quadrant reduction hands to the polynomial.
pub const SIN_POLY_DOM: i64 = 1_570_797;

/// Polynomial sine on `[0, SIN_POLY_DOM]`, in micro-units.
#[verifier::opaque]
pub open spec fn spec_sin_poly(x: int) -> int {
    let fp = FP as int;
    let x2 = x * x / fp;
    let x3 = x2 * x / fp;
    let x5 = x3 * x2 / fp;
    let x7 = x5 * x2 / fp;
    spec_clamp(x - x3 / 6 + x5 / 120 - x7 / 5040, -fp, fp)
}

/// Fixed-point sine of any micro-radian angle.
#[verifier::opaque]
pub open spec fn spec_sin_fx(a: int) -> int {
    let r = a % (TAU_FX as int);
    if r <= HALF_PI_FX as int {
        spec_sin_poly(r)
    } else if r <= PI_FX as int {
        spec_sin_poly(PI_FX as int - r)
    } else if r <= PI_FX as int + HALF_PI_FX as int {
        -spec_sin_poly(r - PI_FX as int)
    } else {
        -spec_sin_poly(TAU_FX as int - r)
    }
}

/// Fixed-point cosine, the sine shifted by a quarter turn.
pub open spec fn spec_cos_fx(a: int) -> int {
    spec_sin_fx(a % (TAU_FX as int) + HALF_PI_FX as int)
}

fn sin_poly(x: i64) -> (s: i64)
    requires
        0 <= x <= SIN_POLY_DOM,
    ensures
        s == spec_sin_poly(x as int),
        -FP <= s <= FP,
{
    proof {
        reveal(spec_sin_poly);
        assert(x as int * x as int <= 2_467_403_415_609) by (nonlinear_arith)
            requires
                0 <= x <= 1_570_797,
        ;
        assert(x as int * x as int >= 0) by (nonlinear_arith)
            requires
                x >= 0,
        ;
    }
    let x2 = (x * x) / FP;
    proof {
        assert(x2 as int * x as int <= 3_875_791_000_000) by (nonlinear_arith)
            requires
                0 <= x2 <= 2_467_404,
                0 <= x <= 1_570_797,
        ;
        assert(x2 as int * x as int >= 0) by (nonlinear_arith)
            requires
                x2 >= 0,
                x >= 0,
        ;
    }
    let x3 = (x2 * x) / FP;
    proof {
        assert(x3 as int * x2 as int <= 9_563_971_000_000) by (nonlinear_arith)
            requires
                0 <= x3 <= 3_875_791,
                0 <= x2 <= 2_467_404,
        ;
        assert(x3 as int * x2 as int >= 0) by (nonlinear_arith)
            requires
                x3 >= 0,
                x2 >= 0,
        ;
    }
    let x5 = (x3 * x2) / FP;
    proof {
        assert(x5 as int * x2 as int <= 23_598_181_000_000) by (nonlinear_arith)
            requires
                0 <= x5 <= 9_563_971,
                0 <= x2 <= 2_467_404,
        ;
        assert(x5 as int * x2 as int >= 0) by (nonlinear_arith)
            requires
                x5 >= 0,
                x2 >= 0,
        ;
    }
    let x7 = (x5 * x2) / FP;
    let t = x - x3 / 6 + x5 / 120 - x7 / 5040;
    clamp_i64(t, -FP, FP)
}

/// Sine of a micro-radian angle, in micro-units.
pub fn sin_fx(a: i64) -> (s: i64)
    ensures
        s == spec_sin_fx(a as int),
        -FP <= s <= FP,
{
    proof {
        reveal(spec_sin_fx);
    }
    let r = euclid_mod_i64(a, TAU_FX);
    if r <= HALF_PI_FX {
        sin_poly(r)
    } else if r <= PI_FX {
        sin_poly(PI_FX - r)
    } else if r <= PI_FX + HALF_PI_FX {
        let v = sin_poly(r - PI_FX);
        -v
    } else {
        let v = sin_poly(TAU_FX - r);
        -v
    }
}

/// Cosine of a micro-radian angle, in micro-units.
pub fn cos_fx(a: i64) -> (c: i64)
    ensures
        c == spec_cos_fx(a as int),
        -FP <= c <= FP,
{
    let r = euclid_mod_i64(a, TAU_FX);
    sin_fx(r + HALF_PI_FX)
}

} // verus!
