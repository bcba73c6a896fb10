use rust_renderer::camera::{Camera, default_camera_extrinsics, default_camera_intrinsics};
use rust_renderer::camera_controller::{CameraController, Key};
use rust_renderer::math::{HALF_PI_FX, TAU_FX};

fn fresh_camera() -> Camera {
    Camera::new(default_camera_extrinsics(), default_camera_intrinsics())
}

#[test]
fn each_key_drives_its_signal() {
    let mut c = CameraController::new(5_000_000, 1_000_000);
    let table = [
        Key::KeyD,
        Key::KeyA,
        Key::KeyQ,
        Key::KeyE,
        Key::KeyS,
        Key::KeyW,
        Key::KeyL,
        Key::KeyJ,
        Key::KeyI,
        Key::KeyK,
    ];
    for key in table {
        assert!(c.process_keyboard(key, true));
    }
    assert_eq!(c.x_axis_positive, 1_000_000);
    assert_eq!(c.x_axis_negative, 1_000_000);
    assert_eq!(c.y_axis_positive, 1_000_000);
    assert_eq!(c.y_axis_negative, 1_000_000);
    assert_eq!(c.z_axis_positive, 1_000_000);
    assert_eq!(c.z_axis_negative, 1_000_000);
    assert_eq!(c.u_axis_positive, 1_000_000);
    assert_eq!(c.u_axis_negative, 1_000_000);
    assert_eq!(c.v_axis_positive, 1_000_000);
    assert_eq!(c.v_axis_negative, 1_000_000);
    for key in table {
        assert!(c.process_keyboard(key, false));
    }
    assert_eq!(c, CameraController::new(5_000_000, 1_000_000));
}

#[test]
fn unbound_keys_are_not_consumed() {
    let mut c = CameraController::new(5_000_000, 1_000_000);
    let before = c;
    assert!(!c.process_keyboard(Key::Unbound, true));
    assert!(!c.process_keyboard(Key::Unbound, false));
    assert_eq!(c, before);
}

#[test]
fn zero_input_leaves_the_camera_alone() {
    let c = CameraController::new(5_000_000, 1_000_000);
    let mut camera = fresh_camera();
    let initial = camera;
    for dt in [1u64, 16_667, 1_000_000, 123_456_789, u64::MAX] {
        c.update_camera(&mut camera, dt);
        assert_eq!(camera, initial);
    }
}

#[test]
fn rotation_only_input_keeps_the_position() {
    let mut c = CameraController::new(5_000_000, 1_000_000);
    c.process_keyboard(Key::KeyL, true);
    c.process_keyboard(Key::KeyI, true);
    let mut camera = fresh_camera();
    let initial = camera;
    c.update_camera(&mut camera, 250_000);
    assert_eq!(camera.extrinsics.pos_x, initial.extrinsics.pos_x);
    assert_eq!(camera.extrinsics.pos_y, initial.extrinsics.pos_y);
    assert_eq!(camera.extrinsics.pos_z, initial.extrinsics.pos_z);
    assert_ne!(camera.extrinsics.yaw, initial.extrinsics.yaw);
    assert_ne!(camera.extrinsics.pitch, initial.extrinsics.pitch);
}

#[test]
fn integration_is_frame_rate_independent() {
    let mut c = CameraController::new(5_000_000, 1_000_000);
    c.process_keyboard(Key::KeyW, true);
    c.process_keyboard(Key::KeyD, true);
    let mut once = fresh_camera();
    c.update_camera(&mut once, 1_000_000);
    let mut tenths = fresh_camera();
    for _ in 0..10 {
        c.update_camera(&mut tenths, 100_000);
    }
    assert_eq!(once, tenths);
    assert_ne!(once.extrinsics, fresh_camera().extrinsics);
}

#[test]
fn forward_key_moves_five_units_along_the_view() {
    // Facing -Z from five units out, a second of forward motion at speed five
    // lands exactly at the origin.
    let mut c = CameraController::new(5_000_000, 1_000_000);
    assert!(c.process_keyboard(Key::KeyW, true));
    let mut camera = fresh_camera();
    assert_eq!(camera.extrinsics.pos_z, 5_000_000_000_000_000_000);
    c.update_camera(&mut camera, 1_000_000);
    assert_eq!(camera.extrinsics.pos_x, 0);
    assert_eq!(camera.extrinsics.pos_y, 0);
    assert_eq!(camera.extrinsics.pos_z, 0);
    assert_eq!(camera.extrinsics.yaw, TAU_FX - HALF_PI_FX);
    assert_eq!(camera.extrinsics.pitch, 0);
    // Releasing the key and ticking again leaves the position unchanged.
    assert!(c.process_keyboard(Key::KeyW, false));
    let parked = camera;
    c.update_camera(&mut camera, 1_000_000);
    assert_eq!(camera, parked);
}

#[test]
fn pitch_saturates_at_the_poles() {
    let mut c = CameraController::new(5_000_000, 1_000_000);
    c.process_keyboard(Key::KeyI, true);
    let mut camera = fresh_camera();
    c.update_camera(&mut camera, 2_000_000);
    assert_eq!(camera.extrinsics.pitch, HALF_PI_FX);
    c.update_camera(&mut camera, 2_000_000);
    assert_eq!(camera.extrinsics.pitch, HALF_PI_FX);
    c.process_keyboard(Key::KeyI, false);
    c.process_keyboard(Key::KeyK, true);
    for _ in 0..5 {
        c.update_camera(&mut camera, 2_000_000);
    }
    assert_eq!(camera.extrinsics.pitch, -HALF_PI_FX);
}

#[test]
fn yaw_stays_wrapped() {
    let mut c = CameraController::new(5_000_000, 1_000_000);
    c.process_keyboard(Key::KeyL, true);
    let mut camera = fresh_camera();
    for _ in 0..50 {
        c.update_camera(&mut camera, 700_000);
        assert!(camera.extrinsics.yaw >= 0);
        assert!(camera.extrinsics.yaw < TAU_FX);
    }
}

#[test]
fn huge_time_steps_saturate_and_stay_in_the_world() {
    let mut c = CameraController::new(1_000_000_000, 1_000_000_000);
    c.process_keyboard(Key::KeyW, true);
    let mut camera = fresh_camera();
    for _ in 0..3 {
        c.update_camera(&mut camera, u64::MAX);
    }
    let bound: i128 = 1_000_000_000_000_000_000_000_000_000;
    assert!(camera.extrinsics.pos_x.abs() <= bound);
    assert!(camera.extrinsics.pos_y.abs() <= bound);
    assert!(camera.extrinsics.pos_z.abs() <= bound);
}
