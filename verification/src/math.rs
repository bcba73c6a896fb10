//! Fixed-point scalar helpers shared by the camera and controller modules.
//!
//! A scalar carries six decimal places: the integer `1_000_000` stands for
//! `1.0`. Angles are micro-radians, world coordinates micro-units.

use vstd::prelude::*;

verus! {

/// One unit in fixed-point ticks (six decimal places).
pub const FP: i64 = 1_000_000;

/// pi / 2 in micro-radians.
pub const HALF_PI_FX: i64 = 1_570_796;

/// pi in micro-radians.
pub const PI_FX: i64 = 3_141_593;

/// 2 * pi in micro-radians; yaw angles are kept in `[0, TAU_FX)`.
pub const TAU_FX: i64 = 6_283_185;

/// Truncating (toward zero) division: the meaning of `/` on machine integers,
/// written over mathematical integers.
pub open spec fn tdiv(a: int, d: int) -> int
    recommends
        d > 0,
{
    if a >= 0 {
        a / d
    } else {
        -((-a) / d)
    }
}

/// Clamp `v` into `[lo, hi]`.
pub open spec fn spec_clamp(v: int, lo: int, hi: int) -> int
    recommends
        lo <= hi,
{
    if v < lo {
        lo
    } else if v > hi {
        hi
    } else {
        v
    }
}

pub fn clamp_i64(v: i64, lo: i64, hi: i64) -> (r: i64)
    requires
        lo <= hi,
    ensures
        r == spec_clamp(v as int, lo as int, hi as int),
        lo <= r <= hi,
{
    if v < lo {
        lo
    } else if v > hi {
        hi
    } else {
        v
    }
}

pub fn clamp_i128(v: i128, lo: i128, hi: i128) -> (r: i128)
    requires
        lo <= hi,
    ensures
        r == spec_clamp(v as int, lo as int, hi as int),
        lo <= r <= hi,
{
    if v < lo {
        lo
    } else if v > hi {
        hi
    } else {
        v
    }
}

/// Euclidean remainder of `a` by a positive modulus, as `%` means in
/// specifications.
pub fn euclid_mod_i64(a: i64, m: i64) -> (r: i64)
    requires
        m > 0,
    ensures
        r == a as int % m as int,
        0 <= r < m,
{
    if a >= 0 {
        a % m
    } else {
        let b = -(a + 1);
        let rb = b % m;
        proof {
            lemma_neg_mod(a as int, m as int);
        }
        m - 1 - rb
    }
}

/// For negative `a`, the Euclidean remainder can be had from the remainder of
/// the non-negative value `-a - 1`.
proof fn lemma_neg_mod(a: int, m: int)
    requires
        m > 0,
        a < 0,
    ensures
        a % m == m - 1 - ((-a - 1) % m),
{
    let b = -a - 1;
    let q = b / m;
    vstd::arithmetic::div_mod::lemma_fundamental_div_mod(b, m);
    vstd::arithmetic::div_mod::lemma_mod_bound(b, m);
    assert(a == -(q + 1) * m + (m - 1 - b % m)) by (nonlinear_arith)
        requires
            a == -b - 1,
            b == q * m + b % m,
    ;
    vstd::arithmetic::div_mod::lemma_fundamental_div_mod_converse_mod(
        a,
        m,
        -(q + 1),
        m - 1 - b % m,
    );
}

/// Truncating division of an `i128` by a positive divisor.
pub fn tdiv_i128(a: i128, d: i128) -> (r: i128)
    requires
        d > 0,
    ensures
        r == tdiv(a as int, d as int),
{
    a / d
}

/// The integer square root of a non-negative value, as a specification value.
pub open spec fn spec_isqrt(n: int) -> int
    recommends
        n >= 0,
{
    choose|r: int| 0 <= r && #[trigger] (r * r) <= n && n < (r + 1) * (r + 1)
}

/// The predicate defining `spec_isqrt` has at most one solution.
pub proof fn lemma_isqrt_is(n: int, r: int)
    requires
        0 <= r,
        r * r <= n,
        n < (r + 1) * (r + 1),
    ensures
        spec_isqrt(n) == r,
{
    assert(exists|q: int| 0 <= q && #[trigger] (q * q) <= n && n < (q + 1) * (q + 1));
    let c = spec_isqrt(n);
    assert(0 <= c && c * c <= n && n < (c + 1) * (c + 1));
    assert(c == r) by (nonlinear_arith)
        requires
            0 <= c,
            0 <= r,
            c * c <= n,
            n < (c + 1) * (c + 1),
            r * r <= n,
            n < (r + 1) * (r + 1),
    ;
}

/// Truncating division shrinks magnitudes: a bound on the dividend gives a
/// bound on the quotient.
pub proof fn lemma_tdiv_abs_le(a: int, d: int, b: int)
    requires
        d > 0,
        0 <= b,
        -(b * d) <= a <= b * d,
    ensures
        -b <= tdiv(a, d) <= b,
{
    if a >= 0 {
        assert(0 <= a / d <= b) by (nonlinear_arith)
            requires
                d > 0,
                0 <= a <= b * d,
        ;
    } else {
        assert(0 <= (-a) / d <= b) by (nonlinear_arith)
            requires
                d > 0,
                0 <= -a <= b * d,
        ;
    }
}

/// A product of values bounded by `p` and `q` is bounded by `p * q`.
pub proof fn lemma_prod_bound(a: int, b: int, p: int, q: int)
    requires
        0 <= p,
        0 <= q,
        -p <= a <= p,
        -q <= b <= q,
    ensures
        -(p * q) <= a * b <= p * q,
{
    assert(-(p * q) <= a * b <= p * q) by (nonlinear_arith)
        requires
            0 <= p,
            0 <= q,
            -p <= a <= p,
            -q <= b <= q,
    ;
}

/// Truncating division by a positive divisor never grows a magnitude.
pub proof fn lemma_tdiv_shrinks(a: int, d: int)
    requires
        d >= 1,
    ensures
        a >= 0 ==> 0 <= tdiv(a, d) <= a,
        a < 0 ==> a <= tdiv(a, d) <= 0,
{
    if a >= 0 {
        assert(0 <= a / d <= a) by (nonlinear_arith)
            requires
                d >= 1,
                a >= 0,
        ;
    } else {
        assert(0 <= (-a) / d <= -a) by (nonlinear_arith)
            requires
                d >= 1,
                a < 0,
        ;
    }
}

/// Fixed-point product of two unit-scale values (both at most one unit in
/// magnitude), rescaled to micro-units.
pub fn mul_unit_fp(a: i64, b: i64) -> (r: i64)
    requires
        -FP <= a <= FP,
        -FP <= b <= FP,
    ensures
        r == tdiv(a as int * b as int, FP as int),
        -FP <= r <= FP,
{
    proof {
        lemma_prod_bound(a as int, b as int, FP as int, FP as int);
        lemma_tdiv_abs_le(a as int * b as int, FP as int, FP as int);
    }
    let p = a as i128 * b as i128;
    let q = tdiv_i128(p, FP as i128);
    q as i64
}

/// Integer square root: the greatest `r` with `r * r <= n`.
pub fn isqrt_u64(n: u64) -> (r: u64)
    ensures
        r * r <= n < (r + 1) * (r + 1),
        r < 0x1_0000_0000,
        r == spec_isqrt(n as int),
{
    let mut lo: u64 = 0;
    let mut hi: u64 = 0x1_0000_0000;
    proof {
        assert(0x1_0000_0000u64 as int * 0x1_0000_0000u64 as int > u64::MAX as int)
            by (nonlinear_arith);
    }
    while hi - lo > 1
        invariant
            lo < hi <= 0x1_0000_0000,
            lo * lo <= n,
            n < hi * hi,
        decreases hi - lo,
    {
        let mid = lo + (hi - lo) / 2;
        proof {
            assert(mid as int * mid as int <= 0x1_0000_0000u64 as int * 0x1_0000_0000u64 as int)
                by (nonlinear_arith)
                requires
                    0 < mid <= 0x1_0000_0000u64,
            ;
            assert(0x1_0000_0000u64 as int * 0x1_0000_0000u64 as int <= u128::MAX as int)
                by (nonlinear_arith);
        }
        let sq: u128 = (mid as u128) * (mid as u128);
        if sq <= n as u128 {
            lo = mid;
        } else {
            hi = mid;
        }
    }
    proof {
        lemma_isqrt_is(n as int, lo as int);
    }
    lo
}

} // verus!
