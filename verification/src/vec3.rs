//! Fixed-point three-component vectors: the carrier of directions and
//! camera basis rows. Components are micro-units.

use vstd::prelude::*;
use crate::math::{
    FP, tdiv, spec_isqrt, lemma_tdiv_abs_le, lemma_prod_bound, tdiv_i128, isqrt_u64,
};

verus! {

/// Bound on the components of vectors fed to `mag_sq` and `try_normalize`.
pub const VEC_IN_MAX: i64 = 3_000_000;

/// Bound on the components of the vectors `cross_fp` accepts.
pub const CROSS_IN_MAX: i64 = 2_000_000;

/// Bound on the components of a `cross_fp` result.
pub const CROSS_OUT_MAX: i64 = 8_000_000;

/// Bound on the micro-unit eye positions `dot3_fp` accepts.
pub const EYE_MAX: i64 = 1_000_000_000_000_000;

/// Bound on a `dot3_fp` result for such inputs.
pub const DOT_OUT_MAX: i64 = 6_000_000_000_000_000;

#[derive(Clone, Copy, PartialEq, Eq, Structural, Debug)]
pub struct Vec3 {
    pub x: i64,
    pub y: i64,
    pub z: i64,
}

impl View for Vec3 {
    type V = (int, int, int);

    open spec fn view(&self) -> (int, int, int) {
        (self.x as int, self.y as int, self.z as int)
    }
}

impl Vec3 {
    pub open spec fn bounded(self, b: int) -> bool {
        &&& -b <= self.x <= b
        &&& -b <= self.y <= b
        &&& -b <= self.z <= b
    }
}

/// Squared magnitude.
pub open spec fn spec_mag_sq(v: (int, int, int)) -> int {
    v.0 * v.0 + v.1 * v.1 + v.2 * v.2
}

/// One component of a vector scaled to unit length `FP`: `m` is the squared
/// magnitude of the whole vector.
pub open spec fn spec_norm_comp(c: int, m: int) -> int {
    tdiv(c * FP, spec_isqrt(m))
}

/// The normalized vector, component by component.
pub open spec fn spec_normalize(v: (int, int, int)) -> (int, int, int) {
    (
        spec_norm_comp(v.0, spec_mag_sq(v)),
        spec_norm_comp(v.1, spec_mag_sq(v)),
        spec_norm_comp(v.2, spec_mag_sq(v)),
    )
}

/// Fixed-point cross product.
pub open spec fn spec_cross(a: (int, int, int), b: (int, int, int)) -> (int, int, int) {
    (
        tdiv(a.1 * b.2 - a.2 * b.1, FP as int),
        tdiv(a.2 * b.0 - a.0 * b.2, FP as int),
        tdiv(a.0 * b.1 - a.1 * b.0, FP as int),
    )
}

/// Fixed-point dot product.
pub open spec fn spec_dot3(a: (int, int, int), b: (int, int, int)) -> int {
    tdiv(a.0 * b.0 + a.1 * b.1 + a.2 * b.2, FP as int)
}

/// Exact squared magnitude of a bounded vector.
pub fn mag_sq(v: &Vec3) -> (m: u64)
    requires
        v.bounded(VEC_IN_MAX as int),
    ensures
        m == spec_mag_sq(v@),
        m <= 27_000_000_000_000,
{
    proof {
        lemma_sq_bound(v.x as int, VEC_IN_MAX as int);
        lemma_sq_bound(v.y as int, VEC_IN_MAX as int);
        lemma_sq_bound(v.z as int, VEC_IN_MAX as int);
    }
    let xx = v.x * v.x;
    let yy = v.y * v.y;
    let zz = v.z * v.z;
    (xx + yy + zz) as u64
}

/// The square of a value bounded by `b` lies in `[0, b * b]`.
proof fn lemma_sq_bound(c: int, b: int)
    requires
        0 <= b,
        -b <= c <= b,
    ensures
        0 <= c * c <= b * b,
{
    assert(0 <= c * c <= b * b) by (nonlinear_arith)
        requires
            0 <= b,
            -b <= c <= b,
    ;
}

fn norm_comp(c: i64, len: u64) -> (r: i64)
    requires
        1 <= len,
        -VEC_IN_MAX <= c <= VEC_IN_MAX,
        (c as int) * (c as int) < ((len as int) + 1) * ((len as int) + 1),
    ensures
        r == tdiv(c as int * FP as int, len as int),
        -FP <= r <= FP,
{
    proof {
        assert(-(len as int) <= c as int <= len as int) by (nonlinear_arith)
            requires
                1 <= len,
                (c as int) * (c as int) < ((len as int) + 1) * ((len as int) + 1),
        ;
        assert(-(FP as int * len as int) <= c as int * FP as int <= FP as int * len as int)
            by (nonlinear_arith)
            requires
                -(len as int) <= c as int <= len as int,
        ;
        lemma_tdiv_abs_le(c as int * FP as int, len as int, FP as int);
    }
    let q = tdiv_i128(c as i128 * FP as i128, len as i128);
    q as i64
}

/// Scale a non-zero vector to unit length `FP`; a zero vector (magnitude
/// below one micro-unit) yields `None`.
pub fn try_normalize(v: &Vec3) -> (r: Option<Vec3>)
    requires
        v.bounded(VEC_IN_MAX as int),
    ensures
        r is None <==> spec_mag_sq(v@) == 0,
        r matches Some(n) ==> n@ == spec_normalize(v@) && n.bounded(FP as int),
{
    let m = mag_sq(v);
    if m == 0 {
        None
    } else {
        let len = isqrt_u64(m);
        proof {
            assert(len >= 1) by (nonlinear_arith)
                requires
                    (m as int) < ((len as int) + 1) * ((len as int) + 1),
                    m >= 1,
                    len >= 0,
            ;
            lemma_comp_sq_le(v.x as int, v.y as int, v.z as int, m as int);
        }
        Some(
            Vec3 {
                x: norm_comp(v.x, len),
                y: norm_comp(v.y, len),
                z: norm_comp(v.z, len),
            },
        )
    }
}

/// Each component's square is at most the squared magnitude.
proof fn lemma_comp_sq_le(x: int, y: int, z: int, m: int)
    requires
        m == x * x + y * y + z * z,
    ensures
        x * x <= m,
        y * y <= m,
        z * z <= m,
{
    assert(x * x <= m && y * y <= m && z * z <= m) by (nonlinear_arith)
        requires
            m == x * x + y * y + z * z,
    ;
}

fn cross_term(p: i64, q: i64, r: i64, s: i64) -> (t: i64)
    requires
        -CROSS_IN_MAX <= p <= CROSS_IN_MAX,
        -CROSS_IN_MAX <= q <= CROSS_IN_MAX,
        -CROSS_IN_MAX <= r <= CROSS_IN_MAX,
        -CROSS_IN_MAX <= s <= CROSS_IN_MAX,
    ensures
        t == tdiv(p as int * q as int - r as int * s as int, FP as int),
        -CROSS_OUT_MAX <= t <= CROSS_OUT_MAX,
        (-FP <= p <= FP && -FP <= q <= FP && -FP <= r <= FP && -FP <= s <= FP) ==> -2 * FP <= t
            <= 2 * FP,
{
    proof {
        assert(-4_000_000_000_000 <= p as int * q as int <= 4_000_000_000_000
            && -4_000_000_000_000 <= r as int * s as int <= 4_000_000_000_000)
            by (nonlinear_arith)
            requires
                -CROSS_IN_MAX <= p <= CROSS_IN_MAX,
                -CROSS_IN_MAX <= q <= CROSS_IN_MAX,
                -CROSS_IN_MAX <= r <= CROSS_IN_MAX,
                -CROSS_IN_MAX <= s <= CROSS_IN_MAX,
        ;
        lemma_tdiv_abs_le(
            p as int * q as int - r as int * s as int,
            FP as int,
            CROSS_OUT_MAX as int,
        );
        if -FP <= p <= FP && -FP <= q <= FP && -FP <= r <= FP && -FP <= s <= FP {
            lemma_prod_bound(p as int, q as int, FP as int, FP as int);
            lemma_prod_bound(r as int, s as int, FP as int, FP as int);
            lemma_tdiv_abs_le(
                p as int * q as int - r as int * s as int,
                FP as int,
                2 * FP as int,
            );
        }
    }
    let a = p * q;
    let b = r * s;
    let d = tdiv_i128(a as i128 - b as i128, FP as i128);
    d as i64
}

/// Fixed-point cross product of two bounded vectors.
pub fn cross_fp(a: &Vec3, b: &Vec3) -> (r: Vec3)
    requires
        a.bounded(CROSS_IN_MAX as int),
        b.bounded(CROSS_IN_MAX as int),
    ensures
        r@ == spec_cross(a@, b@),
        r.bounded(CROSS_OUT_MAX as int),
        a.bounded(FP as int) && b.bounded(FP as int) ==> r.bounded(2 * FP as int),
{
    Vec3 {
        x: cross_term(a.y, b.z, a.z, b.y),
        y: cross_term(a.z, b.x, a.x, b.z),
        z: cross_term(a.x, b.y, a.y, b.x),
    }
}

/// Fixed-point dot product of a unit-scale vector with an eye position.
pub fn dot3_fp(a: &Vec3, b: &Vec3) -> (r: i64)
    requires
        a.bounded(CROSS_IN_MAX as int),
        b.bounded(EYE_MAX as int),
    ensures
        r == spec_dot3(a@, b@),
        -DOT_OUT_MAX <= r <= DOT_OUT_MAX,
{
    proof {
        lemma_prod_bound(a.x as int, b.x as int, CROSS_IN_MAX as int, EYE_MAX as int);
        lemma_prod_bound(a.y as int, b.y as int, CROSS_IN_MAX as int, EYE_MAX as int);
        lemma_prod_bound(a.z as int, b.z as int, CROSS_IN_MAX as int, EYE_MAX as int);
        lemma_tdiv_abs_le(
            a.x as int * b.x as int + a.y as int * b.y as int + a.z as int * b.z as int,
            FP as int,
            DOT_OUT_MAX as int,
        );
    }
    let px = a.x as i128 * b.x as i128;
    let py = a.y as i128 * b.y as i128;
    let pz = a.z as i128 * b.z as i128;
    let d = tdiv_i128(px + py + pz, FP as i128);
    d as i64
}

} // verus!
