//! The camera: extrinsics (position, yaw, pitch), intrinsics (aspect from the
//! window size, field of view, clip planes), and the derived view, projection
//! and combined matrices.
//!
//! The derived matrices are caches: well-formedness ties them to the current
//! extrinsics and intrinsics, so they are never stale across a mutation.
//!
//! Positions are kept in sub-units (`10^-18` of a world unit) so that motion
//! integration is an exact multiply; matrices and angles are micro-units.

use vstd::prelude::*;
use crate::math::{
    FP, HALF_PI_FX, TAU_FX, tdiv, spec_clamp, clamp_i64, clamp_i128, euclid_mod_i64,
    lemma_tdiv_abs_le, lemma_tdiv_shrinks, lemma_prod_bound, mul_unit_fp, tdiv_i128,
};
use crate::trig::{sin_fx, cos_fx, spec_sin_fx, spec_cos_fx};
use crate::vec3::{Vec3, spec_mag_sq, spec_normalize, spec_cross, spec_dot3, try_normalize,
    cross_fp, dot3_fp, EYE_MAX};
use crate::mat4::{Mat4, Mat4Model, mat4_mul, spec_mat4_mul, PROJ_ENTRY_MAX, VIEW_ENTRY_MAX,
    COMBINED_ENTRY_MAX};

verus! {

/// Sub-units per micro-unit: positions carry twelve more decimal places than
/// matrices, so integrating motion never divides (and so never rounds).
pub const POS_SCALE: i128 = 1_000_000_000_000;

/// The world is a box of a billion units: positions saturate here.
pub const POS_MAX: i128 = 1_000_000_000_000_000_000_000_000_000;

/// Smallest near plane, in micro-units (0.001 units).
pub const NEAR_MIN: i64 = 1_000;

/// Largest far plane, in micro-units (1000 units).
pub const FAR_MAX: i64 = 1_000_000_000;

/// Least separation of the clip planes, in micro-units.
pub const CLIP_GAP_MIN: i64 = 1_000;

/// Smallest vertical field of view, in micro-radians (0.01 rad).
pub const FOVY_MIN: i64 = 10_000;

/// Largest vertical field of view, in micro-radians (3 rad).
pub const FOVY_MAX: i64 = 3_000_000;

/// The half-angle tangent is clamped into this range (micro-units), which is
/// slack for every admissible field of view.
pub const TAN_HALF_MIN: i64 = 1_000;

/// Upper companion of `TAN_HALF_MIN`.
pub const TAN_HALF_MAX: i64 = 100_000_000;

/// Camera position and orientation. Yaw is kept in `[0, TAU_FX)` and pitch in
/// `[-HALF_PI_FX, HALF_PI_FX]`; positions are sub-units within the world box.
#[derive(Clone, Copy, PartialEq, Eq, Structural, Debug)]
pub struct CameraExtrinsics {
    pub pos_x: i128,
    pub pos_y: i128,
    pub pos_z: i128,
    pub yaw: i64,
    pub pitch: i64,
}

/// The extrinsics over mathematical integers.
pub struct ExtrinsicsModel {
    pub pos_x: int,
    pub pos_y: int,
    pub pos_z: int,
    pub yaw: int,
    pub pitch: int,
}

impl View for CameraExtrinsics {
    type V = ExtrinsicsModel;

    open spec fn view(&self) -> ExtrinsicsModel {
        ExtrinsicsModel {
            pos_x: self.pos_x as int,
            pos_y: self.pos_y as int,
            pos_z: self.pos_z as int,
            yaw: self.yaw as int,
            pitch: self.pitch as int,
        }
    }
}

impl CameraExtrinsics {
    pub open spec fn wf(self) -> bool {
        &&& -POS_MAX <= self.pos_x <= POS_MAX
        &&& -POS_MAX <= self.pos_y <= POS_MAX
        &&& -POS_MAX <= self.pos_z <= POS_MAX
        &&& 0 <= self.yaw < TAU_FX
        &&& -HALF_PI_FX <= self.pitch <= HALF_PI_FX
    }

    /// Build well-formed extrinsics from raw values: positions saturate at the
    /// world box, yaw is reduced modulo a full turn, pitch is clamped.
    pub fn new(pos_x: i128, pos_y: i128, pos_z: i128, yaw: i64, pitch: i64) -> (e:
        CameraExtrinsics)
        ensures
            e.wf(),
            e.pos_x == spec_clamp(pos_x as int, -POS_MAX as int, POS_MAX as int),
            e.pos_y == spec_clamp(pos_y as int, -POS_MAX as int, POS_MAX as int),
            e.pos_z == spec_clamp(pos_z as int, -POS_MAX as int, POS_MAX as int),
            e.yaw == yaw as int % TAU_FX as int,
            e.pitch == spec_clamp(pitch as int, -HALF_PI_FX as int, HALF_PI_FX as int),
    {
        CameraExtrinsics {
            pos_x: clamp_i128(pos_x, -POS_MAX, POS_MAX),
            pos_y: clamp_i128(pos_y, -POS_MAX, POS_MAX),
            pos_z: clamp_i128(pos_z, -POS_MAX, POS_MAX),
            yaw: euclid_mod_i64(yaw, TAU_FX),
            pitch: clamp_i64(pitch, -HALF_PI_FX, HALF_PI_FX),
        }
    }

    /// The view matrix for these extrinsics: a right-handed look-at from the
    /// position along the direction given by yaw and pitch, with world +Y up.
    #[verifier::rlimit(100)]
    pub fn to_view_matrix(&self) -> (m: Mat4)
        requires
            self.wf(),
        ensures
            m@ == spec_view_matrix(self@),
            m.bounded(VIEW_ENTRY_MAX as int),
    {
        let sy = sin_fx(self.yaw);
        let cy = cos_fx(self.yaw);
        let sp = sin_fx(self.pitch);
        let cp = cos_fx(self.pitch);
        let dir = Vec3 { x: mul_unit_fp(cp, cy), y: sp, z: mul_unit_fp(cp, sy) };
        let f = match try_normalize(&dir) {
            Some(n) => n,
            None => Vec3 { x: 0, y: 0, z: -FP },
        };
        let sv = Vec3 { x: -sy, y: 0, z: cy };
        let s = match try_normalize(&sv) {
            Some(n) => n,
            None => Vec3 { x: FP, y: 0, z: 0 },
        };
        let u = cross_fp(&s, &f);
        let eye = Vec3 {
            x: tdiv_i128(self.pos_x, POS_SCALE) as i64,
            y: tdiv_i128(self.pos_y, POS_SCALE) as i64,
            z: tdiv_i128(self.pos_z, POS_SCALE) as i64,
        };
        proof {
            lemma_tdiv_abs_le(self.pos_x as int, POS_SCALE as int, EYE_MAX as int);
            lemma_tdiv_abs_le(self.pos_y as int, POS_SCALE as int, EYE_MAX as int);
            lemma_tdiv_abs_le(self.pos_z as int, POS_SCALE as int, EYE_MAX as int);
        }
        let tx = dot3_fp(&s, &eye);
        let ty = dot3_fp(&u, &eye);
        let tz = dot3_fp(&f, &eye);
        Mat4 {
            m00: s.x as i128,
            m01: s.y as i128,
            m02: s.z as i128,
            m03: -tx as i128,
            m10: u.x as i128,
            m11: u.y as i128,
            m12: u.z as i128,
            m13: -ty as i128,
            m20: -f.x as i128,
            m21: -f.y as i128,
            m22: -f.z as i128,
            m23: tz as i128,
            m30: 0,
            m31: 0,
            m32: 0,
            m33: FP as i128,
        }
    }
}

/// The spherical-to-Cartesian direction the camera faces.
pub open spec fn spec_view_dir(yaw: int, pitch: int) -> (int, int, int) {
    (
        tdiv(spec_cos_fx(pitch) * spec_cos_fx(yaw), FP as int),
        spec_sin_fx(pitch),
        tdiv(spec_cos_fx(pitch) * spec_sin_fx(yaw), FP as int),
    )
}

/// Forward basis vector of the view: the normalized facing direction. A
/// degenerate direction (possible only at the poles after rounding) falls
/// back to looking down -Z, keeping the matrix total.
pub open spec fn spec_view_f(yaw: int, pitch: int) -> (int, int, int) {
    let dir = spec_view_dir(yaw, pitch);
    if spec_mag_sq(dir) == 0 {
        (0, 0, -FP as int)
    } else {
        spec_normalize(dir)
    }
}

/// Sideways basis vector of the view: the normalized horizontal right-hand
/// direction, a function of yaw alone; degenerate input falls back to +X.
pub open spec fn spec_view_s(yaw: int) -> (int, int, int) {
    let sv = (-spec_sin_fx(yaw), 0int, spec_cos_fx(yaw));
    if spec_mag_sq(sv) == 0 {
        (FP as int, 0int, 0int)
    } else {
        spec_normalize(sv)
    }
}

/// Upward basis vector of the view.
pub open spec fn spec_view_u(yaw: int, pitch: int) -> (int, int, int) {
    spec_cross(spec_view_s(yaw), spec_view_f(yaw, pitch))
}

/// The camera position in micro-units, as the view translation sees it.
pub open spec fn spec_eye(e: ExtrinsicsModel) -> (int, int, int) {
    (
        tdiv(e.pos_x, POS_SCALE as int),
        tdiv(e.pos_y, POS_SCALE as int),
        tdiv(e.pos_z, POS_SCALE as int),
    )
}

/// The right-handed look-at view matrix: rows are the side, up and negated
/// forward basis vectors; the last column moves the eye to the origin.
pub open spec fn spec_view_matrix(e: ExtrinsicsModel) -> Mat4Model {
    let s = spec_view_s(e.yaw);
    let f = spec_view_f(e.yaw, e.pitch);
    let u = spec_view_u(e.yaw, e.pitch);
    let eye = spec_eye(e);
    Mat4Model {
        m00: s.0,
        m01: s.1,
        m02: s.2,
        m03: -spec_dot3(s, eye),
        m10: u.0,
        m11: u.1,
        m12: u.2,
        m13: -spec_dot3(u, eye),
        m20: -f.0,
        m21: -f.1,
        m22: -f.2,
        m23: spec_dot3(f, eye),
        m30: 0,
        m31: 0,
        m32: 0,
        m33: FP as int,
    }
}

/// Camera projection parameters. The aspect ratio is carried exactly as the
/// window size in pixels; angles and distances are micro-units.
#[derive(Clone, Copy, PartialEq, Eq, Structural, Debug)]
pub struct CameraIntrinsics {
    pub width: u32,
    pub height: u32,
    pub fovy: i64,
    pub near: i64,
    pub far: i64,
}

/// The intrinsics over mathematical integers.
pub struct IntrinsicsModel {
    pub width: int,
    pub height: int,
    pub fovy: int,
    pub near: int,
    pub far: int,
}

impl View for CameraIntrinsics {
    type V = IntrinsicsModel;

    open spec fn view(&self) -> IntrinsicsModel {
        IntrinsicsModel {
            width: self.width as int,
            height: self.height as int,
            fovy: self.fovy as int,
            near: self.near as int,
            far: self.far as int,
        }
    }
}

impl CameraIntrinsics {
    pub open spec fn wf(self) -> bool {
        &&& self.width >= 1
        &&& self.height >= 1
        &&& FOVY_MIN <= self.fovy <= FOVY_MAX
        &&& NEAR_MIN <= self.near
        &&& self.near + CLIP_GAP_MIN <= self.far
        &&& self.far <= FAR_MAX
    }

    /// The aspect ratio width / height in micro-units.
    pub fn aspect_fx(&self) -> (a: i64)
        requires
            self.wf(),
        ensures
            a == tdiv(self.width as int * FP as int, self.height as int),
    {
        proof {
            lemma_prod_bound(self.width as int, FP as int, 0xffff_ffffu32 as int, FP as int);
            lemma_tdiv_shrinks(self.width as int * FP as int, self.height as int);
        }
        tdiv_i128(self.width as i128 * FP as i128, self.height as i128) as i64
    }

    /// The perspective projection matrix for a right-handed camera with a
    /// `[0, 1]` depth range (the convention of the graphics backend).
    pub fn to_perspective_matrix(&self) -> (m: Mat4)
        requires
            self.wf(),
        ensures
            m@ == spec_proj_matrix(self@),
            m.bounded(PROJ_ENTRY_MAX as int),
    {
        let half = self.fovy / 2;
        let sh = sin_fx(half);
        let ch = cos_fx(half);
        let cpos = if ch < 1 {
            1
        } else {
            ch
        };
        let traw = tdiv_i128(sh as i128 * FP as i128, cpos as i128);
        proof {
            lemma_prod_bound(sh as int, FP as int, FP as int, FP as int);
            lemma_tdiv_shrinks(sh as int * FP as int, cpos as int);
        }
        let t = clamp_i64(traw as i64, TAN_HALF_MIN, TAN_HALF_MAX);
        proof {
            lemma_prod_bound(
                self.width as int,
                t as int,
                0xffff_ffffu32 as int,
                TAN_HALF_MAX as int,
            );
            assert(self.width as int * t as int >= 1) by (nonlinear_arith)
                requires
                    1 <= self.width,
                    1 <= t,
            ;
            assert(self.height as int * (FP as int * FP as int) <= PROJ_ENTRY_MAX as int * (
            self.width as int * t as int)) by (nonlinear_arith)
                requires
                    1 <= self.width,
                    self.height <= 0xffff_ffffu32,
                    TAN_HALF_MIN as int <= t,
            ;
        }
        let wt = self.width as i128 * t as i128;
        proof {
            lemma_tdiv_abs_le(
                self.height as int * (FP as int * FP as int),
                self.width as int * t as int,
                PROJ_ENTRY_MAX as int,
            );
        }
        let m00 = tdiv_i128(self.height as i128 * (FP as i128 * FP as i128), wt);
        proof {
            lemma_tdiv_shrinks(FP as int * FP as int, t as int);
        }
        let m11 = tdiv_i128(FP as i128 * FP as i128, t as i128);
        let gap = self.far - self.near;
        proof {
            lemma_prod_bound(self.far as int, FP as int, FAR_MAX as int, FP as int);
            lemma_tdiv_shrinks(self.far as int * FP as int, gap as int);
            lemma_prod_bound(self.far as int, self.near as int, FAR_MAX as int, FAR_MAX as int);
            lemma_tdiv_shrinks(self.far as int * self.near as int, gap as int);
        }
        let m22 = -tdiv_i128(self.far as i128 * FP as i128, gap as i128);
        let m23 = -tdiv_i128(self.far as i128 * self.near as i128, gap as i128);
        Mat4 {
            m00,
            m01: 0,
            m02: 0,
            m03: 0,
            m10: 0,
            m11,
            m12: 0,
            m13: 0,
            m20: 0,
            m21: 0,
            m22,
            m23,
            m30: 0,
            m31: 0,
            m32: -(FP as i128),
            m33: 0,
        }
    }
}

/// The clamped fixed-point tangent of half the field of view.
pub open spec fn spec_tan_half(fovy: int) -> int {
    let half = tdiv(fovy, 2);
    let s = spec_sin_fx(half);
    let c = spec_cos_fx(half);
    let cpos = if c < 1 {
        1
    } else {
        c
    };
    spec_clamp(tdiv(s * FP, cpos), TAN_HALF_MIN as int, TAN_HALF_MAX as int)
}

/// The perspective projection matrix over mathematical integers.
pub open spec fn spec_proj_matrix(i: IntrinsicsModel) -> Mat4Model {
    let t = spec_tan_half(i.fovy);
    Mat4Model {
        m00: tdiv(i.height * (FP as int * FP as int), i.width * t),
        m01: 0,
        m02: 0,
        m03: 0,
        m10: 0,
        m11: tdiv(FP as int * FP as int, t),
        m12: 0,
        m13: 0,
        m20: 0,
        m21: 0,
        m22: -tdiv(i.far * FP, i.far - i.near),
        m23: -tdiv(i.far * i.near, i.far - i.near),
        m30: 0,
        m31: 0,
        m32: -FP as int,
        m33: 0,
    }
}

/// The camera: extrinsics and intrinsics together with their derived view and
/// projection matrices, which well-formedness keeps current.
#[derive(Clone, Copy, PartialEq, Eq, Structural, Debug)]
pub struct Camera {
    pub extrinsics: CameraExtrinsics,
    pub intrinsics: CameraIntrinsics,
    pub view_matrix: Mat4,
    pub proj_matrix: Mat4,
}

/// The camera over mathematical integers.
pub struct CameraModel {
    pub extrinsics: ExtrinsicsModel,
    pub intrinsics: IntrinsicsModel,
    pub view: Mat4Model,
    pub proj: Mat4Model,
}

impl View for Camera {
    type V = CameraModel;

    open spec fn view(&self) -> CameraModel {
        CameraModel {
            extrinsics: self.extrinsics@,
            intrinsics: self.intrinsics@,
            view: self.view_matrix@,
            proj: self.proj_matrix@,
        }
    }
}

impl Camera {
    /// The derived matrices are exactly those of the current extrinsics and
    /// intrinsics: a camera is never seen with a stale cache.
    pub open spec fn wf(self) -> bool {
        &&& self.extrinsics.wf()
        &&& self.intrinsics.wf()
        &&& self.view_matrix@ == spec_view_matrix(self.extrinsics@)
        &&& self.proj_matrix@ == spec_proj_matrix(self.intrinsics@)
        &&& self.view_matrix.bounded(VIEW_ENTRY_MAX as int)
        &&& self.proj_matrix.bounded(PROJ_ENTRY_MAX as int)
    }

    /// A camera with both matrices computed from the given parameters.
    pub fn new(extrinsics: CameraExtrinsics, intrinsics: CameraIntrinsics) -> (c: Camera)
        requires
            extrinsics.wf(),
            intrinsics.wf(),
        ensures
            c.wf(),
            c.extrinsics == extrinsics,
            c.intrinsics == intrinsics,
    {
        let view_matrix = extrinsics.to_view_matrix();
        let proj_matrix = intrinsics.to_perspective_matrix();
        Camera { extrinsics, intrinsics, view_matrix, proj_matrix }
    }

    /// The combined matrix, projection applied after view, ready for upload.
    pub fn to_uniform_matrix(&self) -> (m: Mat4)
        requires
            self.wf(),
        ensures
            m@ == spec_mat4_mul(spec_proj_matrix(self.intrinsics@), spec_view_matrix(
                self.extrinsics@)),
            m.bounded(COMBINED_ENTRY_MAX as int),
    {
        mat4_mul(&self.proj_matrix, &self.view_matrix)
    }

    /// Adopt a new window size. A degenerate size (either dimension zero) is
    /// a no-op; otherwise the aspect ratio and the projection matrix follow
    /// the new size, and nothing else changes.
    pub fn set_aspect(&mut self, width: u32, height: u32)
        requires
            old(self).wf(),
        ensures
            final(self).wf(),
            final(self).extrinsics == old(self).extrinsics,
            final(self).view_matrix == old(self).view_matrix,
            width == 0 || height == 0 ==> *final(self) == *old(self),
            width >= 1 && height >= 1 ==> final(self).intrinsics@ == (IntrinsicsModel {
                width: width as int,
                height: height as int,
                ..old(self).intrinsics@
            }) && final(self).proj_matrix@ == spec_proj_matrix(final(self).intrinsics@),
    {
        if width >= 1 && height >= 1 {
            self.intrinsics.width = width;
            self.intrinsics.height = height;
            self.proj_matrix = self.intrinsics.to_perspective_matrix();
        }
    }
}

/// The extrinsics the renderer starts from: five units back along +Z, facing
/// -Z (a yaw of three quarter turns), level pitch.
pub fn default_camera_extrinsics() -> (e: CameraExtrinsics)
    ensures
        e.wf(),
        e.pos_x == 0,
        e.pos_y == 0,
        e.pos_z == 5_000_000_000_000_000_000i128,
        e.yaw == TAU_FX - HALF_PI_FX,
        e.pitch == 0,
{
    CameraExtrinsics {
        pos_x: 0,
        pos_y: 0,
        pos_z: 5_000_000_000_000_000_000,
        yaw: TAU_FX - HALF_PI_FX,
        pitch: 0,
    }
}

/// The intrinsics the renderer starts from: square aspect until the window
/// reports its size, a 1.04 rad field of view, clip planes at 0.01 and 50.
pub fn default_camera_intrinsics() -> (i: CameraIntrinsics)
    ensures
        i.wf(),
        i.width == 1,
        i.height == 1,
        i.fovy == 1_040_000,
        i.near == 10_000,
        i.far == 50_000_000,
{
    CameraIntrinsics { width: 1, height: 1, fovy: 1_040_000, near: 10_000, far: 50_000_000 }
}

} // verus!
