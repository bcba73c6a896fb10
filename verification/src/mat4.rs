//! Fixed-point 4x4 matrices in row-major layout: the carrier of the view,
//! projection and combined camera matrices. Entries are micro-units.

use vstd::prelude::*;
use crate::math::{FP, tdiv, lemma_tdiv_abs_le, lemma_prod_bound, tdiv_i128};

verus! {

/// Bound on the entries of a projection matrix built by this library.
pub const PROJ_ENTRY_MAX: i128 = 4_500_000_000_000_000_000;

/// Bound on the entries of a view matrix built by this library.
pub const VIEW_ENTRY_MAX: i128 = 7_000_000_000_000_000;

/// Bound on the entries of the combined (projection x view) matrix.
pub const COMBINED_ENTRY_MAX: i128 = 130_000_000_000_000_000_000_000_000_000;

/// A fixed-point matrix, row `i` column `j` in field `mij`.
#[derive(Clone, Copy, PartialEq, Eq, Structural, Debug)]
pub struct Mat4 {
    pub m00: i128,
    pub m01: i128,
    pub m02: i128,
    pub m03: i128,
    pub m10: i128,
    pub m11: i128,
    pub m12: i128,
    pub m13: i128,
    pub m20: i128,
    pub m21: i128,
    pub m22: i128,
    pub m23: i128,
    pub m30: i128,
    pub m31: i128,
    pub m32: i128,
    pub m33: i128,
}

/// The same matrix over mathematical integers, for specifications.
pub struct Mat4Model {
    pub m00: int,
    pub m01: int,
    pub m02: int,
    pub m03: int,
    pub m10: int,
    pub m11: int,
    pub m12: int,
    pub m13: int,
    pub m20: int,
    pub m21: int,
    pub m22: int,
    pub m23: int,
    pub m30: int,
    pub m31: int,
    pub m32: int,
    pub m33: int,
}

impl View for Mat4 {
    type V = Mat4Model;

    open spec fn view(&self) -> Mat4Model {
        Mat4Model {
            m00: self.m00 as int,
            m01: self.m01 as int,
            m02: self.m02 as int,
            m03: self.m03 as int,
            m10: self.m10 as int,
            m11: self.m11 as int,
            m12: self.m12 as int,
            m13: self.m13 as int,
            m20: self.m20 as int,
            m21: self.m21 as int,
            m22: self.m22 as int,
            m23: self.m23 as int,
            m30: self.m30 as int,
            m31: self.m31 as int,
            m32: self.m32 as int,
            m33: self.m33 as int,
        }
    }
}

impl Mat4 {
    pub open spec fn bounded(self, b: int) -> bool {
        &&& -b <= self.m00 <= b
        &&& -b <= self.m01 <= b
        &&& -b <= self.m02 <= b
        &&& -b <= self.m03 <= b
        &&& -b <= self.m10 <= b
        &&& -b <= self.m11 <= b
        &&& -b <= self.m12 <= b
        &&& -b <= self.m13 <= b
        &&& -b <= self.m20 <= b
        &&& -b <= self.m21 <= b
        &&& -b <= self.m22 <= b
        &&& -b <= self.m23 <= b
        &&& -b <= self.m30 <= b
        &&& -b <= self.m31 <= b
        &&& -b <= self.m32 <= b
        &&& -b <= self.m33 <= b
    }
}

/// One entry of a fixed-point matrix product: a row of `a` against a column
/// of `b`, rescaled to micro-units.
pub open spec fn spec_mul_rc(
    a0: int,
    a1: int,
    a2: int,
    a3: int,
    b0: int,
    b1: int,
    b2: int,
    b3: int,
) -> int {
    tdiv(a0 * b0 + a1 * b1 + a2 * b2 + a3 * b3, FP as int)
}

/// The fixed-point matrix product, row i of `a` against column j of `b`.
pub open spec fn spec_mat4_mul(a: Mat4Model, b: Mat4Model) -> Mat4Model {
    Mat4Model {
        m00: spec_mul_rc(a.m00, a.m01, a.m02, a.m03, b.m00, b.m10, b.m20, b.m30),
        m01: spec_mul_rc(a.m00, a.m01, a.m02, a.m03, b.m01, b.m11, b.m21, b.m31),
        m02: spec_mul_rc(a.m00, a.m01, a.m02, a.m03, b.m02, b.m12, b.m22, b.m32),
        m03: spec_mul_rc(a.m00, a.m01, a.m02, a.m03, b.m03, b.m13, b.m23, b.m33),
        m10: spec_mul_rc(a.m10, a.m11, a.m12, a.m13, b.m00, b.m10, b.m20, b.m30),
        m11: spec_mul_rc(a.m10, a.m11, a.m12, a.m13, b.m01, b.m11, b.m21, b.m31),
        m12: spec_mul_rc(a.m10, a.m11, a.m12, a.m13, b.m02, b.m12, b.m22, b.m32),
        m13: spec_mul_rc(a.m10, a.m11, a.m12, a.m13, b.m03, b.m13, b.m23, b.m33),
        m20: spec_mul_rc(a.m20, a.m21, a.m22, a.m23, b.m00, b.m10, b.m20, b.m30),
        m21: spec_mul_rc(a.m20, a.m21, a.m22, a.m23, b.m01, b.m11, b.m21, b.m31),
        m22: spec_mul_rc(a.m20, a.m21, a.m22, a.m23, b.m02, b.m12, b.m22, b.m32),
        m23: spec_mul_rc(a.m20, a.m21, a.m22, a.m23, b.m03, b.m13, b.m23, b.m33),
        m30: spec_mul_rc(a.m30, a.m31, a.m32, a.m33, b.m00, b.m10, b.m20, b.m30),
        m31: spec_mul_rc(a.m30, a.m31, a.m32, a.m33, b.m01, b.m11, b.m21, b.m31),
        m32: spec_mul_rc(a.m30, a.m31, a.m32, a.m33, b.m02, b.m12, b.m22, b.m32),
        m33: spec_mul_rc(a.m30, a.m31, a.m32, a.m33, b.m03, b.m13, b.m23, b.m33),
    }
}

fn mul_rc(a0: i128, a1: i128, a2: i128, a3: i128, b0: i128, b1: i128, b2: i128, b3: i128) -> (r:
    i128)
    requires
        -PROJ_ENTRY_MAX <= a0 <= PROJ_ENTRY_MAX,
        -PROJ_ENTRY_MAX <= a1 <= PROJ_ENTRY_MAX,
        -PROJ_ENTRY_MAX <= a2 <= PROJ_ENTRY_MAX,
        -PROJ_ENTRY_MAX <= a3 <= PROJ_ENTRY_MAX,
        -VIEW_ENTRY_MAX <= b0 <= VIEW_ENTRY_MAX,
        -VIEW_ENTRY_MAX <= b1 <= VIEW_ENTRY_MAX,
        -VIEW_ENTRY_MAX <= b2 <= VIEW_ENTRY_MAX,
        -VIEW_ENTRY_MAX <= b3 <= VIEW_ENTRY_MAX,
    ensures
        r == spec_mul_rc(
            a0 as int,
            a1 as int,
            a2 as int,
            a3 as int,
            b0 as int,
            b1 as int,
            b2 as int,
            b3 as int,
        ),
        -COMBINED_ENTRY_MAX <= r <= COMBINED_ENTRY_MAX,
{
    proof {
        lemma_prod_bound(a0 as int, b0 as int, PROJ_ENTRY_MAX as int, VIEW_ENTRY_MAX as int);
        lemma_prod_bound(a1 as int, b1 as int, PROJ_ENTRY_MAX as int, VIEW_ENTRY_MAX as int);
        lemma_prod_bound(a2 as int, b2 as int, PROJ_ENTRY_MAX as int, VIEW_ENTRY_MAX as int);
        lemma_prod_bound(a3 as int, b3 as int, PROJ_ENTRY_MAX as int, VIEW_ENTRY_MAX as int);
        lemma_tdiv_abs_le(
            a0 as int * b0 as int + a1 as int * b1 as int + a2 as int * b2 as int + a3 as int
                * b3 as int,
            FP as int,
            COMBINED_ENTRY_MAX as int,
        );
    }
    let s = a0 * b0 + a1 * b1 + a2 * b2 + a3 * b3;
    tdiv_i128(s, FP as i128)
}

/// The fixed-point product of a projection matrix and a view matrix.
pub fn mat4_mul(a: &Mat4, b: &Mat4) -> (r: Mat4)
    requires
        a.bounded(PROJ_ENTRY_MAX as int),
        b.bounded(VIEW_ENTRY_MAX as int),
    ensures
        r@ == spec_mat4_mul(a@, b@),
        r.bounded(COMBINED_ENTRY_MAX as int),
{
    Mat4 {
        m00: mul_rc(a.m00, a.m01, a.m02, a.m03, b.m00, b.m10, b.m20, b.m30),
        m01: mul_rc(a.m00, a.m01, a.m02, a.m03, b.m01, b.m11, b.m21, b.m31),
        m02: mul_rc(a.m00, a.m01, a.m02, a.m03, b.m02, b.m12, b.m22, b.m32),
        m03: mul_rc(a.m00, a.m01, a.m02, a.m03, b.m03, b.m13, b.m23, b.m33),
        m10: mul_rc(a.m10, a.m11, a.m12, a.m13, b.m00, b.m10, b.m20, b.m30),
        m11: mul_rc(a.m10, a.m11, a.m12, a.m13, b.m01, b.m11, b.m21, b.m31),
        m12: mul_rc(a.m10, a.m11, a.m12, a.m13, b.m02, b.m12, b.m22, b.m32),
        m13: mul_rc(a.m10, a.m11, a.m12, a.m13, b.m03, b.m13, b.m23, b.m33),
        m20: mul_rc(a.m20, a.m21, a.m22, a.m23, b.m00, b.m10, b.m20, b.m30),
        m21: mul_rc(a.m20, a.m21, a.m22, a.m23, b.m01, b.m11, b.m21, b.m31),
        m22: mul_rc(a.m20, a.m21, a.m22, a.m23, b.m02, b.m12, b.m22, b.m32),
        m23: mul_rc(a.m20, a.m21, a.m22, a.m23, b.m03, b.m13, b.m23, b.m33),
        m30: mul_rc(a.m30, a.m31, a.m32, a.m33, b.m00, b.m10, b.m20, b.m30),
        m31: mul_rc(a.m30, a.m31, a.m32, a.m33, b.m01, b.m11, b.m21, b.m31),
        m32: mul_rc(a.m30, a.m31, a.m32, a.m33, b.m02, b.m12, b.m22, b.m32),
        m33: mul_rc(a.m30, a.m31, a.m32, a.m33, b.m03, b.m13, b.m23, b.m33),
    }
}

} // verus!
