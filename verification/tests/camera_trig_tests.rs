use orbit_points::camera::CAM_AXIS_OFFSET_FP;
use orbit_points::camera::CameraState;
use orbit_points::camera::camera_eye;
use orbit_points::camera::move_camera;
use orbit_points::fixed::FX_ONE;
use orbit_points::trig::PI_FP;
use orbit_points::trig::TWO_PI_FP;
use orbit_points::trig::cos_fp;
use orbit_points::trig::sin_fp;

const ORBIT_R: i64 = 3 * FX_ONE;

fn camera_at(angle_raw: i64) -> CameraState {
    CameraState { angle_raw, axis_offset: CAM_AXIS_OFFSET_FP }
}

#[test]
fn trig_exact_anchors() {
    assert_eq!(cos_fp(0), FX_ONE);
    assert_eq!(sin_fp(0), 0);
    assert_eq!(cos_fp(PI_FP), -FX_ONE);
    assert_eq!(sin_fp(PI_FP), 0);
}

#[test]
fn trig_periodic_over_full_turns() {
    for a in [-5_000_000i64, -1, 0, 123_456, 3_000_000] {
        assert_eq!(cos_fp(a + TWO_PI_FP), cos_fp(a));
        assert_eq!(sin_fp(a - TWO_PI_FP), sin_fp(a));
    }
}

#[test]
fn trig_tracks_real_cos_and_sin() {
    let one = FX_ONE as f64;
    let mut a: i64 = -20_000_000;
    while a <= 20_000_000 {
        let rad = a as f64 / one;
        assert!((cos_fp(a) as f64 / one - rad.cos()).abs() < 0.002);
        assert!((sin_fp(a) as f64 / one - rad.sin()).abs() < 0.002);
        a += 9_973;
    }
}

#[test]
fn camera_eye_at_angle_zero() {
    let eye = camera_eye(&camera_at(0));
    assert_eq!(eye, (ORBIT_R, 0, 0));
}

#[test]
fn camera_eye_at_quarter_turn() {
    // 157080 cursor units stand for pi/2 radians; the eye must sit at
    // roughly (0, 0, R).
    let eye = camera_eye(&camera_at(157_080));
    let tol = FX_ONE / 64;
    assert!(eye.0.abs() < tol);
    assert_eq!(eye.1, 0);
    assert!((eye.2 - ORBIT_R).abs() < tol);
}

#[test]
fn camera_eye_stays_on_orbit_circle() {
    let one = FX_ONE as f64;
    for raw in [-400_000i64, -77_777, 0, 50_000, 123_456, 900_000] {
        let eye = camera_eye(&camera_at(raw));
        let (x, z) = (eye.0 as f64 / one, eye.2 as f64 / one);
        assert!(((x * x + z * z).sqrt() - 3.0).abs() < 0.01);
    }
}

#[test]
fn move_camera_adds_exactly_the_cursor_x() {
    let c0 = camera_at(1_000);
    let c1 = move_camera(&c0, 12_345, 999);
    assert_eq!(c1.angle_raw, 13_345);
    assert_eq!(c1.axis_offset, c0.axis_offset);
    let c2 = move_camera(&c1, -20_000, -3);
    assert_eq!(c2.angle_raw, -6_655);
}

#[test]
fn move_camera_is_monotone_in_x() {
    let c0 = camera_at(0);
    let mut last = move_camera(&c0, -10, 0).angle_raw;
    for dx in [-5i64, 0, 3, 10, 250] {
        let next = move_camera(&c0, dx, 42).angle_raw;
        assert!(next >= last);
        last = next;
    }
}
