//! Keyboard-driven camera motion: ten paired axis signals integrated over
//! elapsed time into the camera extrinsics.
//!
//! Everything is fixed point. A position step is the single product
//! `direction x speed x dt` with no division, so integration is exactly
//! linear in the time step; rotation steps are scaled back to micro-radians,
//! yaw is wrapped and pitch is clamped.

use vstd::prelude::*;
use crate::math::{
    FP, HALF_PI_FX, TAU_FX, tdiv, spec_clamp, clamp_i64, clamp_i128, euclid_mod_i64,
    lemma_tdiv_abs_le, lemma_prod_bound, tdiv_i128,
};
use crate::vec3::{Vec3, spec_mag_sq, spec_normalize, try_normalize};
use crate::mat4::{Mat4, Mat4Model, VIEW_ENTRY_MAX};
use crate::camera::{Camera, CameraModel, ExtrinsicsModel, spec_view_matrix, POS_MAX};

verus! {

/// Largest admissible movement speed, in micro-units per second (1000/s).
pub const SPEED_MAX: i64 = 1_000_000_000;

/// Largest admissible rotation sensitivity, in micro-radians per second.
pub const SENS_MAX: i64 = 1_000_000_000;

/// Time steps saturate here (in microseconds): a quarter hour of wall clock.
pub const DT_MAX: u64 = 1_000_000_000;

/// Scale of `signal x sensitivity x dt` back down to micro-radians.
pub const ANGLE_SCALE: i128 = 1_000_000_000_000;

/// Bound on one component of the world-space movement direction.
pub const WORLD_DIR_MAX: i128 = 21_000_000_000_000_000;

/// The keys the controller consumes; anything else is left to the caller.
#[derive(Clone, Copy, PartialEq, Eq, Structural, Debug)]
pub enum Key {
    KeyD,
    KeyA,
    KeyQ,
    KeyE,
    KeyS,
    KeyW,
    KeyL,
    KeyJ,
    KeyI,
    KeyK,
    Unbound,
}

/// Input state: one signal per direction key, `FP` while held, 0 released;
/// plus the configured movement speed and rotation sensitivity.
#[derive(Clone, Copy, PartialEq, Eq, Structural, Debug)]
pub struct CameraController {
    pub speed: i64,
    pub sensitivity: i64,
    pub x_axis_positive: i64,
    pub x_axis_negative: i64,
    pub y_axis_positive: i64,
    pub y_axis_negative: i64,
    pub z_axis_positive: i64,
    pub z_axis_negative: i64,
    pub u_axis_positive: i64,
    pub u_axis_negative: i64,
    pub v_axis_positive: i64,
    pub v_axis_negative: i64,
}

/// The controller over mathematical integers.
pub struct ControllerModel {
    pub speed: int,
    pub sensitivity: int,
    pub xp: int,
    pub xn: int,
    pub yp: int,
    pub yn: int,
    pub zp: int,
    pub zn: int,
    pub up: int,
    pub un: int,
    pub vp: int,
    pub vn: int,
}

impl View for CameraController {
    type V = ControllerModel;

    open spec fn view(&self) -> ControllerModel {
        ControllerModel {
            speed: self.speed as int,
            sensitivity: self.sensitivity as int,
            xp: self.x_axis_positive as int,
            xn: self.x_axis_negative as int,
            yp: self.y_axis_positive as int,
            yn: self.y_axis_negative as int,
            zp: self.z_axis_positive as int,
            zn: self.z_axis_negative as int,
            up: self.u_axis_positive as int,
            un: self.u_axis_negative as int,
            vp: self.v_axis_positive as int,
            vn: self.v_axis_negative as int,
        }
    }
}

/// The key-to-signal table: each consumed key drives exactly one signal.
pub open spec fn spec_process_key(c: ControllerModel, key: Key, pressed: bool) -> ControllerModel {
    let amount: int = if pressed {
        FP as int
    } else {
        0
    };
    match key {
        Key::KeyD => ControllerModel { xp: amount, ..c },
        Key::KeyA => ControllerModel { xn: amount, ..c },
        Key::KeyQ => ControllerModel { yp: amount, ..c },
        Key::KeyE => ControllerModel { yn: amount, ..c },
        Key::KeyS => ControllerModel { zp: amount, ..c },
        Key::KeyW => ControllerModel { zn: amount, ..c },
        Key::KeyL => ControllerModel { up: amount, ..c },
        Key::KeyJ => ControllerModel { un: amount, ..c },
        Key::KeyI => ControllerModel { vp: amount, ..c },
        Key::KeyK => ControllerModel { vn: amount, ..c },
        Key::Unbound => c,
    }
}

/// The camera-local movement direction the translation signals ask for.
pub open spec fn spec_dir(c: ControllerModel) -> (int, int, int) {
    (c.xp - c.xn, c.yp - c.yn, c.zp - c.zn)
}

/// True when no signal is set: the controller asks for no motion at all.
pub open spec fn spec_signals_zero(c: ControllerModel) -> bool {
    &&& c.xp == 0 && c.xn == 0
    &&& c.yp == 0 && c.yn == 0
    &&& c.zp == 0 && c.zn == 0
    &&& c.up == 0 && c.un == 0
    &&& c.vp == 0 && c.vn == 0
}

/// The normalized movement direction carried from camera space to world
/// space by the transpose of the view rotation (the inverse of a rotation,
/// up to fixed-point rounding).
pub open spec fn spec_world_dir(c: ControllerModel, view: Mat4Model) -> (int, int, int) {
    spec_world_dir_raw(view, spec_normalize(spec_dir(c)))
}

/// The position after one integration step: unchanged for a direction below
/// one micro-unit of magnitude, else moved by `direction x speed x dt` and
/// saturated at the world box.
pub open spec fn spec_pos_step(c: ControllerModel, cam: CameraModel, dt: int) -> (int, int, int) {
    let e = cam.extrinsics;
    if spec_mag_sq(spec_dir(c)) == 0 {
        (e.pos_x, e.pos_y, e.pos_z)
    } else {
        let w = spec_world_dir(c, cam.view);
        (
            spec_clamp(e.pos_x + w.0 * c.speed * dt, -POS_MAX as int, POS_MAX as int),
            spec_clamp(e.pos_y + w.1 * c.speed * dt, -POS_MAX as int, POS_MAX as int),
            spec_clamp(e.pos_z + w.2 * c.speed * dt, -POS_MAX as int, POS_MAX as int),
        )
    }
}

/// The yaw after one integration step, wrapped into `[0, TAU_FX)`.
pub open spec fn spec_yaw_step(c: ControllerModel, e: ExtrinsicsModel, dt: int) -> int {
    (e.yaw + tdiv((c.up - c.un) * c.sensitivity * dt, ANGLE_SCALE as int)) % (TAU_FX as int)
}

/// The pitch after one integration step, clamped to straight up or down.
pub open spec fn spec_pitch_step(c: ControllerModel, e: ExtrinsicsModel, dt: int) -> int {
    spec_clamp(
        e.pitch + tdiv((c.vp - c.vn) * c.sensitivity * dt, ANGLE_SCALE as int),
        -HALF_PI_FX as int,
        HALF_PI_FX as int,
    )
}

/// One whole camera update: the time step saturates at `DT_MAX`, the position
/// integrates against the previous view matrix, rotation follows, and the
/// view matrix is recomputed from the new extrinsics.
pub open spec fn spec_update_camera(c: ControllerModel, cam: CameraModel, dt: int) -> CameraModel {
    let dtc = if dt > DT_MAX as int {
        DT_MAX as int
    } else {
        dt
    };
    let p = spec_pos_step(c, cam, dtc);
    let e1 = ExtrinsicsModel {
        pos_x: p.0,
        pos_y: p.1,
        pos_z: p.2,
        yaw: spec_yaw_step(c, cam.extrinsics, dtc),
        pitch: spec_pitch_step(c, cam.extrinsics, dtc),
    };
    CameraModel {
        extrinsics: e1,
        intrinsics: cam.intrinsics,
        view: spec_view_matrix(e1),
        proj: cam.proj,
    }
}

impl CameraController {
    pub open spec fn wf(self) -> bool {
        &&& 0 <= self.speed <= SPEED_MAX
        &&& 0 <= self.sensitivity <= SENS_MAX
        &&& 0 <= self.x_axis_positive <= FP
        &&& 0 <= self.x_axis_negative <= FP
        &&& 0 <= self.y_axis_positive <= FP
        &&& 0 <= self.y_axis_negative <= FP
        &&& 0 <= self.z_axis_positive <= FP
        &&& 0 <= self.z_axis_negative <= FP
        &&& 0 <= self.u_axis_positive <= FP
        &&& 0 <= self.u_axis_negative <= FP
        &&& 0 <= self.v_axis_positive <= FP
        &&& 0 <= self.v_axis_negative <= FP
    }

    /// A controller with all signals released.
    pub fn new(speed: i64, sensitivity: i64) -> (c: CameraController)
        requires
            0 <= speed <= SPEED_MAX,
            0 <= sensitivity <= SENS_MAX,
        ensures
            c.wf(),
            c.speed == speed,
            c.sensitivity == sensitivity,
            spec_signals_zero(c@),
    {
        CameraController {
            speed,
            sensitivity,
            x_axis_positive: 0,
            x_axis_negative: 0,
            y_axis_positive: 0,
            y_axis_negative: 0,
            z_axis_positive: 0,
            z_axis_negative: 0,
            u_axis_positive: 0,
            u_axis_negative: 0,
            v_axis_positive: 0,
            v_axis_negative: 0,
        }
    }

    /// Set the one signal the key drives to full on press and to zero on
    /// release; report an unbound key as not consumed, leaving it to the
    /// caller.
    pub fn process_keyboard(&mut self, key: Key, pressed: bool) -> (consumed: bool)
        requires
            old(self).wf(),
        ensures
            final(self).wf(),
            final(self)@ == spec_process_key(old(self)@, key, pressed),
            consumed == !(key is Unbound),
    {
        let amount: i64 = if pressed {
            FP
        } else {
            0
        };
        match key {
            Key::KeyD => {
                self.x_axis_positive = amount;
                true
            },
            Key::KeyA => {
                self.x_axis_negative = amount;
                true
            },
            Key::KeyQ => {
                self.y_axis_positive = amount;
                true
            },
            Key::KeyE => {
                self.y_axis_negative = amount;
                true
            },
            Key::KeyS => {
                self.z_axis_positive = amount;
                true
            },
            Key::KeyW => {
                self.z_axis_negative = amount;
                true
            },
            Key::KeyL => {
                self.u_axis_positive = amount;
                true
            },
            Key::KeyJ => {
                self.u_axis_negative = amount;
                true
            },
            Key::KeyI => {
                self.v_axis_positive = amount;
                true
            },
            Key::KeyK => {
                self.v_axis_negative = amount;
                true
            },
            Key::Unbound => false,
        }
    }

    fn update_position(&self, camera: &mut Camera, dtc: u64)
        requires
            self.wf(),
            old(camera).wf(),
            dtc <= DT_MAX,
        ensures
            ({
                let p = spec_pos_step(self@, old(camera)@, dtc as int);
                &&& final(camera).extrinsics.pos_x == p.0
                &&& final(camera).extrinsics.pos_y == p.1
                &&& final(camera).extrinsics.pos_z == p.2
            }),
            final(camera).extrinsics.yaw == old(camera).extrinsics.yaw,
            final(camera).extrinsics.pitch == old(camera).extrinsics.pitch,
            final(camera).intrinsics == old(camera).intrinsics,
            final(camera).view_matrix == old(camera).view_matrix,
            final(camera).proj_matrix == old(camera).proj_matrix,
            -POS_MAX <= final(camera).extrinsics.pos_x <= POS_MAX,
            -POS_MAX <= final(camera).extrinsics.pos_y <= POS_MAX,
            -POS_MAX <= final(camera).extrinsics.pos_z <= POS_MAX,
    {
        let dir = Vec3 {
            x: self.x_axis_positive - self.x_axis_negative,
            y: self.y_axis_positive - self.y_axis_negative,
            z: self.z_axis_positive - self.z_axis_negative,
        };
        match try_normalize(&dir) {
            None => {},
            Some(n) => {
                let w = transpose_rot_apply(&camera.view_matrix, &n);
                camera.extrinsics.pos_x = integrate_component(
                    camera.extrinsics.pos_x,
                    w.0,
                    self.speed,
                    dtc,
                );
                camera.extrinsics.pos_y = integrate_component(
                    camera.extrinsics.pos_y,
                    w.1,
                    self.speed,
                    dtc,
                );
                camera.extrinsics.pos_z = integrate_component(
                    camera.extrinsics.pos_z,
                    w.2,
                    self.speed,
                    dtc,
                );
            },
        }
    }

    fn update_rotation(&self, camera: &mut Camera, dtc: u64)
        requires
            self.wf(),
            dtc <= DT_MAX,
            old(camera).extrinsics.wf(),
        ensures
            final(camera).extrinsics.yaw == spec_yaw_step(self@, old(camera).extrinsics@,
                dtc as int),
            final(camera).extrinsics.pitch == spec_pitch_step(self@, old(camera).extrinsics@,
                dtc as int),
            final(camera).extrinsics.pos_x == old(camera).extrinsics.pos_x,
            final(camera).extrinsics.pos_y == old(camera).extrinsics.pos_y,
            final(camera).extrinsics.pos_z == old(camera).extrinsics.pos_z,
            final(camera).intrinsics == old(camera).intrinsics,
            final(camera).view_matrix == old(camera).view_matrix,
            final(camera).proj_matrix == old(camera).proj_matrix,
            0 <= final(camera).extrinsics.yaw < TAU_FX,
            -HALF_PI_FX <= final(camera).extrinsics.pitch <= HALF_PI_FX,
    {
        let dyaw = rotation_delta(
            self.u_axis_positive - self.u_axis_negative,
            self.sensitivity,
            dtc,
        );
        camera.extrinsics.yaw = euclid_mod_i64(camera.extrinsics.yaw + dyaw, TAU_FX);
        let dpitch = rotation_delta(
            self.v_axis_positive - self.v_axis_negative,
            self.sensitivity,
            dtc,
        );
        camera.extrinsics.pitch = clamp_i64(
            camera.extrinsics.pitch + dpitch,
            -HALF_PI_FX,
            HALF_PI_FX,
        );
    }

    /// One frame of camera motion: integrate the position against the
    /// previous view matrix, then the rotation, then recompute the view.
    pub fn update_camera(&self, camera: &mut Camera, dt_micros: u64)
        requires
            self.wf(),
            old(camera).wf(),
        ensures
            final(camera).wf(),
            final(camera)@ == spec_update_camera(self@, old(camera)@, dt_micros as int),
            -HALF_PI_FX <= final(camera).extrinsics.pitch <= HALF_PI_FX,
    {
        let dtc = if dt_micros > DT_MAX {
            DT_MAX
        } else {
            dt_micros
        };
        self.update_position(camera, dtc);
        self.update_rotation(camera, dtc);
        camera.view_matrix = camera.extrinsics.to_view_matrix();
    }
}

/// The transpose of the view rotation applied to a unit direction: carries a
/// camera-local direction into world space.
fn transpose_rot_apply(m: &Mat4, n: &Vec3) -> (w: (i128, i128, i128))
    requires
        m.bounded(VIEW_ENTRY_MAX as int),
        n.bounded(FP as int),
    ensures
        (w.0 as int, w.1 as int, w.2 as int) == spec_world_dir_raw(m@, n@),
        -WORLD_DIR_MAX <= w.0 <= WORLD_DIR_MAX,
        -WORLD_DIR_MAX <= w.1 <= WORLD_DIR_MAX,
        -WORLD_DIR_MAX <= w.2 <= WORLD_DIR_MAX,
{
    let w0 = transpose_rot_term(m.m00, m.m10, m.m20, n);
    let w1 = transpose_rot_term(m.m01, m.m11, m.m21, n);
    let w2 = transpose_rot_term(m.m02, m.m12, m.m22, n);
    (w0, w1, w2)
}

/// One column of the view rotation dotted with the direction.
pub open spec fn spec_world_dir_raw(view: Mat4Model, n: (int, int, int)) -> (int, int, int) {
    (
        tdiv(view.m00 * n.0 + view.m10 * n.1 + view.m20 * n.2, FP as int),
        tdiv(view.m01 * n.0 + view.m11 * n.1 + view.m21 * n.2, FP as int),
        tdiv(view.m02 * n.0 + view.m12 * n.1 + view.m22 * n.2, FP as int),
    )
}

fn transpose_rot_term(a: i128, b: i128, c: i128, n: &Vec3) -> (t: i128)
    requires
        -VIEW_ENTRY_MAX <= a <= VIEW_ENTRY_MAX,
        -VIEW_ENTRY_MAX <= b <= VIEW_ENTRY_MAX,
        -VIEW_ENTRY_MAX <= c <= VIEW_ENTRY_MAX,
        n.bounded(FP as int),
    ensures
        t == tdiv(a as int * n.x as int + b as int * n.y as int + c as int * n.z as int,
            FP as int),
        -WORLD_DIR_MAX <= t <= WORLD_DIR_MAX,
{
    proof {
        lemma_prod_bound(a as int, n.x as int, VIEW_ENTRY_MAX as int, FP as int);
        lemma_prod_bound(b as int, n.y as int, VIEW_ENTRY_MAX as int, FP as int);
        lemma_prod_bound(c as int, n.z as int, VIEW_ENTRY_MAX as int, FP as int);
        lemma_tdiv_abs_le(
            a as int * n.x as int + b as int * n.y as int + c as int * n.z as int,
            FP as int,
            WORLD_DIR_MAX as int,
        );
    }
    let s = a * n.x as i128 + b * n.y as i128 + c * n.z as i128;
    tdiv_i128(s, FP as i128)
}

/// One position component moved by `direction x speed x dt` and saturated at
/// the world box.
fn integrate_component(p: i128, w: i128, speed: i64, dtc: u64) -> (r: i128)
    requires
        -POS_MAX <= p <= POS_MAX,
        -WORLD_DIR_MAX <= w <= WORLD_DIR_MAX,
        0 <= speed <= SPEED_MAX,
        dtc <= DT_MAX,
    ensures
        r == spec_clamp(p + (w as int) * (speed as int) * (dtc as int), -POS_MAX as int,
            POS_MAX as int),
        -POS_MAX <= r <= POS_MAX,
{
    proof {
        lemma_prod_bound(w as int, speed as int, WORLD_DIR_MAX as int, SPEED_MAX as int);
        lemma_prod_bound(
            w as int * speed as int,
            dtc as int,
            WORLD_DIR_MAX as int * SPEED_MAX as int,
            DT_MAX as int,
        );
    }
    let change = w * speed as i128 * dtc as i128;
    clamp_i128(p + change, -POS_MAX, POS_MAX)
}

/// A rotation delta in micro-radians: `signal x sensitivity x dt`, rescaled.
fn rotation_delta(signal: i64, sensitivity: i64, dtc: u64) -> (d: i64)
    requires
        -FP <= signal <= FP,
        0 <= sensitivity <= SENS_MAX,
        dtc <= DT_MAX,
    ensures
        d == tdiv((signal as int) * (sensitivity as int) * (dtc as int), ANGLE_SCALE as int),
        -1_000_000_000_000 <= d <= 1_000_000_000_000,
{
    proof {
        lemma_prod_bound(signal as int, sensitivity as int, FP as int, SENS_MAX as int);
        lemma_prod_bound(
            signal as int * sensitivity as int,
            dtc as int,
            FP as int * SENS_MAX as int,
            DT_MAX as int,
        );
        lemma_tdiv_abs_le(
            signal as int * sensitivity as int * dtc as int,
            ANGLE_SCALE as int,
            1_000_000_000_000int,
        );
    }
    let prod = signal as i128 * sensitivity as i128 * dtc as i128;
    tdiv_i128(prod, ANGLE_SCALE) as i64
}

/// The camera invariant the laws below speak of: the extrinsics are within
/// their ranges and the view matrix is the one of the current extrinsics.
/// A well-formed `Camera` satisfies it, and every update preserves it.
pub open spec fn spec_camera_inv(cam: CameraModel) -> bool {
    &&& -POS_MAX <= cam.extrinsics.pos_x <= POS_MAX
    &&& -POS_MAX <= cam.extrinsics.pos_y <= POS_MAX
    &&& -POS_MAX <= cam.extrinsics.pos_z <= POS_MAX
    &&& 0 <= cam.extrinsics.yaw < TAU_FX
    &&& -HALF_PI_FX <= cam.extrinsics.pitch <= HALF_PI_FX
    &&& cam.view == spec_view_matrix(cam.extrinsics)
}

/// A well-formed camera satisfies the invariant of the laws.
pub proof fn lemma_wf_camera_satisfies_inv(cam: Camera)
    requires
        cam.wf(),
    ensures
        spec_camera_inv(cam@),
{
}

/// One update keeps the camera invariant, whatever the input state and the
/// time step: positions saturate inside the world box, yaw stays wrapped,
/// pitch stays clamped, and the view matrix is recomputed.
pub proof fn lemma_update_preserves_inv(c: CameraController, cam: CameraModel, dt: int)
    requires
        c.wf(),
        spec_camera_inv(cam),
    ensures
        spec_camera_inv(spec_update_camera(c@, cam, dt)),
{
    let dtc = if dt > DT_MAX as int {
        DT_MAX as int
    } else {
        dt
    };
    let yaw1 = spec_yaw_step(c@, cam.extrinsics, dtc);
    vstd::arithmetic::div_mod::lemma_mod_bound(
        cam.extrinsics.yaw + tdiv(
            (c@.up - c@.un) * c@.sensitivity * dtc,
            ANGLE_SCALE as int,
        ),
        TAU_FX as int,
    );
    assert(0 <= yaw1 < TAU_FX);
}

/// With every axis signal at zero, an update leaves the camera exactly as it
/// was, whatever the time step and however often it runs: idle frames cannot
/// drift the camera.
pub proof fn lemma_zero_input_idempotent(c: CameraController, cam: CameraModel, dt: int)
    requires
        c.wf(),
        spec_camera_inv(cam),
        spec_signals_zero(c@),
    ensures
        spec_update_camera(c@, cam, dt) == cam,
{
    let dtc = if dt > DT_MAX as int {
        DT_MAX as int
    } else {
        dt
    };
    assert(0int * 0int == 0) by (nonlinear_arith);
    assert(spec_mag_sq(spec_dir(c@)) == 0);
    assert((c@.up - c@.un) * c@.sensitivity * dtc == 0) by (nonlinear_arith)
        requires
            c@.up == c@.un,
    ;
    assert((c@.vp - c@.vn) * c@.sensitivity * dtc == 0) by (nonlinear_arith)
        requires
            c@.vp == c@.vn,
    ;
    assert(spec_yaw_step(c@, cam.extrinsics, dtc) == cam.extrinsics.yaw);
    assert(spec_pitch_step(c@, cam.extrinsics, dtc) == cam.extrinsics.pitch);
    assert(spec_update_camera(c@, cam, dt).extrinsics == cam.extrinsics);
}

/// A movement direction of magnitude below one micro-unit (the zero vector at
/// this resolution) leaves the position untouched, whatever the time step and
/// the configured speed.
pub proof fn lemma_tiny_direction_keeps_position(c: CameraController, cam: CameraModel, dt: int)
    requires
        c.wf(),
        spec_camera_inv(cam),
        spec_mag_sq(spec_dir(c@)) == 0,
    ensures
        spec_update_camera(c@, cam, dt).extrinsics.pos_x == cam.extrinsics.pos_x,
        spec_update_camera(c@, cam, dt).extrinsics.pos_y == cam.extrinsics.pos_y,
        spec_update_camera(c@, cam, dt).extrinsics.pos_z == cam.extrinsics.pos_z,
{
}

/// Frame-rate independence: with no net rotation input and no saturation at
/// the world box, integrating over one long step moves the camera exactly as
/// integrating over any two steps that add up to it.
pub proof fn lemma_integration_additive(c: CameraController, cam: CameraModel, dt1: int, dt2: int)
    requires
        c.wf(),
        spec_camera_inv(cam),
        c@.up == c@.un,
        c@.vp == c@.vn,
        0 <= dt1,
        0 <= dt2,
        dt1 + dt2 <= DT_MAX,
        spec_mag_sq(spec_dir(c@)) != 0 ==> ({
            let w = spec_world_dir(c@, cam.view);
            &&& -POS_MAX <= cam.extrinsics.pos_x + w.0 * c@.speed * (dt1 + dt2) <= POS_MAX
            &&& -POS_MAX <= cam.extrinsics.pos_y + w.1 * c@.speed * (dt1 + dt2) <= POS_MAX
            &&& -POS_MAX <= cam.extrinsics.pos_z + w.2 * c@.speed * (dt1 + dt2) <= POS_MAX
        }),
    ensures
        spec_update_camera(c@, spec_update_camera(c@, cam, dt1), dt2) == spec_update_camera(
            c@,
            cam,
            dt1 + dt2,
        ),
{
    let m1 = spec_update_camera(c@, cam, dt1);
    let m2 = spec_update_camera(c@, m1, dt2);
    let mc = spec_update_camera(c@, cam, dt1 + dt2);
    assert((c@.up - c@.un) * c@.sensitivity * dt1 == 0) by (nonlinear_arith)
        requires
            c@.up == c@.un,
    ;
    assert((c@.up - c@.un) * c@.sensitivity * dt2 == 0) by (nonlinear_arith)
        requires
            c@.up == c@.un,
    ;
    assert((c@.up - c@.un) * c@.sensitivity * (dt1 + dt2) == 0) by (nonlinear_arith)
        requires
            c@.up == c@.un,
    ;
    assert((c@.vp - c@.vn) * c@.sensitivity * dt1 == 0) by (nonlinear_arith)
        requires
            c@.vp == c@.vn,
    ;
    assert((c@.vp - c@.vn) * c@.sensitivity * dt2 == 0) by (nonlinear_arith)
        requires
            c@.vp == c@.vn,
    ;
    assert((c@.vp - c@.vn) * c@.sensitivity * (dt1 + dt2) == 0) by (nonlinear_arith)
        requires
            c@.vp == c@.vn,
    ;
    assert(m1.extrinsics.yaw == cam.extrinsics.yaw);
    assert(m1.extrinsics.pitch == cam.extrinsics.pitch);
    if spec_mag_sq(spec_dir(c@)) == 0 {
        assert(m1.extrinsics == cam.extrinsics);
        assert(m2.extrinsics == mc.extrinsics);
    } else {
        let w = spec_world_dir(c@, cam.view);
        assert(spec_world_dir(c@, m1.view) == w);
        lemma_segment_within(cam.extrinsics.pos_x, w.0 * c@.speed, dt1, dt2);
        lemma_segment_within(cam.extrinsics.pos_y, w.1 * c@.speed, dt1, dt2);
        lemma_segment_within(cam.extrinsics.pos_z, w.2 * c@.speed, dt1, dt2);
        assert(m2.extrinsics == mc.extrinsics);
    }
}

/// On a saturation-free segment the two clamps of the split integration both
/// vanish: moving for `dt1` and then `dt2` lands exactly where moving for
/// `dt1 + dt2` does.
proof fn lemma_segment_within(p: int, k: int, dt1: int, dt2: int)
    requires
        0 <= dt1,
        0 <= dt2,
        -POS_MAX <= p <= POS_MAX,
        -POS_MAX <= p + k * (dt1 + dt2) <= POS_MAX,
    ensures
        spec_clamp(
            spec_clamp(p + k * dt1, -POS_MAX as int, POS_MAX as int) + k * dt2,
            -POS_MAX as int,
            POS_MAX as int,
        ) == spec_clamp(p + k * (dt1 + dt2), -POS_MAX as int, POS_MAX as int),
{
    assert(k * dt1 + k * dt2 == k * (dt1 + dt2)) by (nonlinear_arith);
    assert((k >= 0 ==> 0 <= k * dt1 <= k * (dt1 + dt2)) && (k <= 0 ==> k * (dt1 + dt2) <= k * dt1
        <= 0)) by (nonlinear_arith)
        requires
            0 <= dt1,
            0 <= dt2,
    ;
}

/// The camera after `n` updates of `dt` each, under one unchanged input state.
pub open spec fn spec_update_n(c: ControllerModel, cam: CameraModel, dt: int, n: nat) -> CameraModel
    decreases n,
{
    if n == 0 {
        cam
    } else {
        spec_update_camera(c, spec_update_n(c, cam, dt, (n - 1) as nat), dt)
    }
}

/// Frame-rate independence in the many-frames form: with no net rotation
/// input and no saturation, `n` updates of `dt` each land exactly where one
/// update of `n * dt` does.
pub proof fn lemma_equal_steps_integrate_once(
    c: CameraController,
    cam: CameraModel,
    dt: int,
    n: nat,
)
    requires
        c.wf(),
        spec_camera_inv(cam),
        c@.up == c@.un,
        c@.vp == c@.vn,
        0 <= dt,
        1 <= n,
        n * dt <= DT_MAX,
        spec_mag_sq(spec_dir(c@)) != 0 ==> ({
            let w = spec_world_dir(c@, cam.view);
            &&& -POS_MAX <= cam.extrinsics.pos_x + w.0 * c@.speed * (n * dt) <= POS_MAX
            &&& -POS_MAX <= cam.extrinsics.pos_y + w.1 * c@.speed * (n * dt) <= POS_MAX
            &&& -POS_MAX <= cam.extrinsics.pos_z + w.2 * c@.speed * (n * dt) <= POS_MAX
        }),
    ensures
        spec_update_n(c@, cam, dt, n) == spec_update_camera(c@, cam, n * dt),
    decreases n,
{
    assert(0 <= n * dt) by (nonlinear_arith)
        requires
            0 <= dt,
            0 <= n,
    ;
    if n == 1 {
        assert(spec_update_n(c@, cam, dt, 0nat) == cam);
        assert(n * dt == dt) by (nonlinear_arith)
            requires
                n == 1,
        ;
    } else {
        let prev = (n - 1) as nat;
        assert(prev * dt + dt == n * dt && 0 <= prev * dt <= n * dt) by (nonlinear_arith)
            requires
                n >= 1,
                prev == n - 1,
                0 <= dt,
        ;
        if spec_mag_sq(spec_dir(c@)) != 0 {
            let w = spec_world_dir(c@, cam.view);
            lemma_prefix_stays_within(cam.extrinsics.pos_x, w.0 * c@.speed, prev * dt, n * dt);
            lemma_prefix_stays_within(cam.extrinsics.pos_y, w.1 * c@.speed, prev * dt, n * dt);
            lemma_prefix_stays_within(cam.extrinsics.pos_z, w.2 * c@.speed, prev * dt, n * dt);
        }
        lemma_equal_steps_integrate_once(c, cam, dt, prev);
        lemma_integration_additive(c, cam, prev * dt, dt);
    }
}

/// Travelling part of a saturation-free segment stays saturation-free.
proof fn lemma_prefix_stays_within(p: int, k: int, part: int, whole: int)
    requires
        0 <= part <= whole,
        -POS_MAX <= p <= POS_MAX,
        -POS_MAX <= p + k * whole <= POS_MAX,
    ensures
        -POS_MAX <= p + k * part <= POS_MAX,
{
    assert((k >= 0 ==> 0 <= k * part <= k * whole) && (k <= 0 ==> k * whole <= k * part <= 0))
        by (nonlinear_arith)
        requires
            0 <= part <= whole,
    ;
}

/// One update, then the rest: a camera driven through a whole input history.
pub open spec fn spec_apply_updates(
    cam: CameraModel,
    steps: Seq<(ControllerModel, int)>,
) -> CameraModel
    decreases steps.len(),
{
    if steps.len() == 0 {
        cam
    } else {
        spec_apply_updates(
            spec_update_camera(steps[0].0, cam, steps[0].1),
            steps.subrange(1, steps.len() as int),
        )
    }
}

/// Clamp law: after any non-empty sequence of updates, whatever keys were
/// held and whatever the time steps, the pitch lies between straight down
/// and straight up.
pub proof fn lemma_pitch_clamped_after_updates(
    cam: CameraModel,
    steps: Seq<(ControllerModel, int)>,
)
    requires
        steps.len() > 0,
    ensures
        -HALF_PI_FX <= spec_apply_updates(cam, steps).extrinsics.pitch <= HALF_PI_FX,
    decreases steps.len(),
{
    let next = spec_update_camera(steps[0].0, cam, steps[0].1);
    let rest = steps.subrange(1, steps.len() as int);
    if steps.len() == 1 {
        assert(rest.len() == 0);
        assert(spec_apply_updates(cam, steps) == spec_apply_updates(next, rest));
        assert(spec_apply_updates(next, rest) == next);
    } else {
        lemma_pitch_clamped_after_updates(next, rest);
    }
}

} // verus!
