use rust_renderer::camera::{
    Camera, CameraExtrinsics, CameraIntrinsics, default_camera_extrinsics,
    default_camera_intrinsics,
};
use rust_renderer::mat4::Mat4;
use rust_renderer::math::{HALF_PI_FX, TAU_FX};
use rust_renderer::trig::{cos_fx, sin_fx};

fn to_f64(x: i128) -> f64 {
    x as f64 / 1.0e6
}

fn rows(m: &Mat4) -> [[i128; 4]; 4] {
    [
        [m.m00, m.m01, m.m02, m.m03],
        [m.m10, m.m11, m.m12, m.m13],
        [m.m20, m.m21, m.m22, m.m23],
        [m.m30, m.m31, m.m32, m.m33],
    ]
}

#[test]
fn trig_known_values() {
    assert_eq!(sin_fx(0), 0);
    assert_eq!(sin_fx(HALF_PI_FX), 999_844);
    assert_eq!(cos_fx(0), 999_844);
    assert_eq!(sin_fx(3_141_593), 0);
    assert_eq!(cos_fx(HALF_PI_FX), 1);
    assert_eq!(sin_fx(520_000), 496_880);
    assert_eq!(cos_fx(520_000), 867_816);
    assert_eq!(sin_fx(TAU_FX - HALF_PI_FX), -999_844);
    assert_eq!(cos_fx(TAU_FX - HALF_PI_FX), 0);
}

#[test]
fn trig_tracks_the_real_functions() {
    let mut a: i64 = -12_000_000;
    while a <= 12_000_000 {
        let expected_sin = (a as f64 / 1.0e6).sin();
        let expected_cos = (a as f64 / 1.0e6).cos();
        assert!((sin_fx(a) as f64 / 1.0e6 - expected_sin).abs() < 2.0e-4);
        assert!((cos_fx(a) as f64 / 1.0e6 - expected_cos).abs() < 2.0e-4);
        a += 137_511;
    }
}

#[test]
fn view_matrix_rotation_is_orthonormal() {
    let mut yaw: i64 = 0;
    while yaw < TAU_FX {
        let mut pitch: i64 = -1_500_000;
        while pitch <= 1_500_000 {
            let e = CameraExtrinsics::new(0, 0, 0, yaw, pitch);
            let m = rows(&e.to_view_matrix());
            let r: Vec<[f64; 3]> = (0..3)
                .map(|i| [to_f64(m[i][0]), to_f64(m[i][1]), to_f64(m[i][2])])
                .collect();
            for i in 0..3 {
                let norm = r[i][0] * r[i][0] + r[i][1] * r[i][1] + r[i][2] * r[i][2];
                assert!(
                    (norm - 1.0).abs() < 5.0e-3,
                    "row {} norm {} at yaw {} pitch {}",
                    i,
                    norm,
                    yaw,
                    pitch
                );
                for j in 0..i {
                    let dot = r[i][0] * r[j][0] + r[i][1] * r[j][1] + r[i][2] * r[j][2];
                    assert!(
                        dot.abs() < 5.0e-3,
                        "rows {} and {} dot {} at yaw {} pitch {}",
                        i,
                        j,
                        dot,
                        yaw,
                        pitch
                    );
                }
            }
            pitch += 375_000;
        }
        yaw += 392_699;
    }
}

#[test]
fn view_matrix_at_default_orientation() {
    let e = default_camera_extrinsics();
    let m = e.to_view_matrix();
    assert_eq!((m.m00, m.m01, m.m02), (1_000_000, 0, 0));
    assert_eq!((m.m10, m.m11, m.m12), (0, 1_000_000, 0));
    assert_eq!((m.m20, m.m21, m.m22), (0, 0, 1_000_000));
    assert_eq!((m.m03, m.m13), (0, 0));
    assert_eq!(m.m23, -5_000_000);
    assert_eq!((m.m30, m.m31, m.m32, m.m33), (0, 0, 0, 1_000_000));
}

#[test]
fn extrinsics_constructor_normalizes() {
    let big: i128 = 2_000_000_000_000_000_000_000_000_000;
    let e = CameraExtrinsics::new(big, -big, 7, -HALF_PI_FX, 2_000_000);
    assert_eq!(e.pos_x, 1_000_000_000_000_000_000_000_000_000);
    assert_eq!(e.pos_y, -1_000_000_000_000_000_000_000_000_000);
    assert_eq!(e.pos_z, 7);
    assert_eq!(e.yaw, TAU_FX - HALF_PI_FX);
    assert_eq!(e.pitch, HALF_PI_FX);
}

#[test]
fn projection_matrix_default_values() {
    let i = default_camera_intrinsics();
    let m = i.to_perspective_matrix();
    assert_eq!(m.m00, 1_746_532);
    assert_eq!(m.m11, 1_746_532);
    assert_eq!(m.m22, -1_000_200);
    assert_eq!(m.m23, -10_002);
    assert_eq!(m.m32, -1_000_000);
    assert_eq!(m.m33, 0);
    assert_eq!((m.m01, m.m02, m.m03), (0, 0, 0));
    assert_eq!((m.m10, m.m12, m.m13), (0, 0, 0));
    assert_eq!((m.m20, m.m21), (0, 0));
    assert_eq!((m.m30, m.m31), (0, 0));
}

#[test]
fn aspect_update_follows_the_window() {
    let mut camera = Camera::new(default_camera_extrinsics(), default_camera_intrinsics());
    camera.set_aspect(800, 600);
    assert_eq!(camera.intrinsics.aspect_fx(), 1_333_333);
    assert_eq!(camera.intrinsics.width, 800);
    assert_eq!(camera.intrinsics.height, 600);
    assert_eq!(camera.proj_matrix.m00, 1_309_899);
    assert_eq!(camera.proj_matrix.m11, 1_746_532);
}

#[test]
fn degenerate_resize_is_a_no_op() {
    let mut camera = Camera::new(default_camera_extrinsics(), default_camera_intrinsics());
    camera.set_aspect(800, 600);
    let before = camera;
    camera.set_aspect(0, 600);
    assert_eq!(camera, before);
    camera.set_aspect(800, 0);
    assert_eq!(camera, before);
    camera.set_aspect(0, 0);
    assert_eq!(camera, before);
}

#[test]
fn uniform_matrix_is_the_product() {
    let mut camera = Camera::new(default_camera_extrinsics(), default_camera_intrinsics());
    camera.set_aspect(800, 600);
    let u = rows(&camera.to_uniform_matrix());
    let p = rows(&camera.proj_matrix);
    let v = rows(&camera.view_matrix);
    for i in 0..4 {
        for j in 0..4 {
            let mut expected = 0.0f64;
            for k in 0..4 {
                expected += to_f64(p[i][k]) * to_f64(v[k][j]);
            }
            assert!(
                (to_f64(u[i][j]) - expected).abs() < 1.0e-3,
                "entry {} {}: {} vs {}",
                i,
                j,
                to_f64(u[i][j]),
                expected
            );
        }
    }
}

#[test]
fn camera_new_computes_both_matrices() {
    let e = CameraExtrinsics::new(0, 0, 3_000_000_000_000_000_000, 0, 100_000);
    let i = CameraIntrinsics { width: 640, height: 480, fovy: 900_000, near: 5_000, far: 80_000_000 };
    let camera = Camera::new(e, i);
    assert_eq!(camera.view_matrix, e.to_view_matrix());
    assert_eq!(camera.proj_matrix, i.to_perspective_matrix());
    assert_eq!(camera.extrinsics, e);
    assert_eq!(camera.intrinsics, i);
}
