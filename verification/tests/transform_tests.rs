use orbit_points::camera::CameraState;
use orbit_points::error::RenderError;
use orbit_points::fixed::FX_ONE;
use orbit_points::matrix::Mat4;
use orbit_points::matrix::build_transform;
use orbit_points::matrix::depth_convention_matrix;
use orbit_points::matrix::matrix_columns;
use orbit_points::matrix::perspective_matrix;

fn camera_at(angle_raw: i64) -> CameraState {
    CameraState { angle_raw, axis_offset: -4 * FX_ONE }
}

#[test]
fn depth_convention_entries_are_half() {
    let m = depth_convention_matrix();
    assert_eq!(m.c2r2, FX_ONE / 2);
    assert_eq!(m.c3r2, FX_ONE / 2);
    assert_eq!(m.c0r0, FX_ONE);
    assert_eq!(m.c1r1, FX_ONE);
    assert_eq!(m.c3r3, FX_ONE);
    assert_eq!(m.c2r3, 0);
}

#[test]
fn perspective_entries_exact() {
    let p = perspective_matrix(FX_ONE);
    assert_eq!(p.c0r0, FX_ONE);
    assert_eq!(p.c1r1, FX_ONE);
    assert_eq!(p.c2r2, -1048596);
    assert_eq!(p.c2r3, -FX_ONE);
    assert_eq!(p.c3r2, -20972);
    assert_eq!(p.c3r3, 0);
    // A wider viewport only shrinks the leading entry.
    let p2 = perspective_matrix(2 * FX_ONE);
    assert_eq!(p2.c0r0, FX_ONE / 2);
    assert_eq!(p2.c2r2, p.c2r2);
}

#[test]
fn perspective_uses_the_aspect_as_given_down_to_one_unit() {
    // Even the smallest representable positive aspect ratio is honored
    // exactly: the leading entry is FX_ONE / aspect in fixed point.
    let p1 = perspective_matrix(1);
    assert_eq!(p1.c0r0, FX_ONE * FX_ONE);
    let p2 = perspective_matrix(2);
    assert_eq!(p2.c0r0, FX_ONE * FX_ONE / 2);
    let p3 = perspective_matrix(1048);
    assert_eq!(p3.c0r0, FX_ONE * FX_ONE / 1048);
}

#[test]
fn thin_aspects_yield_distinct_transforms() {
    let t1 = build_transform(1, &camera_at(0)).unwrap();
    let t2 = build_transform(2, &camera_at(0)).unwrap();
    assert_ne!(t1, t2);
    assert_eq!(t1.c1r1, FX_ONE);
    assert_eq!(t2.c1r1, FX_ONE);
}

#[test]
fn transform_full_matrix_at_identity_aspect() {
    let t = build_transform(FX_ONE, &camera_at(0)).unwrap();
    let cols = matrix_columns(&t);
    let expected: Vec<i64> = vec![
        0, 0, -1048586, -1048576,
        0, 1048576, 0, 0,
        -1048576, 0, 0, 0,
        0, 0, 3135272, 3145728,
    ];
    assert_eq!(cols, expected);
}

#[test]
fn transform_depth_row_is_half_remap() {
    // The composed transform's depth row must be the half-sum remap of the
    // projection-view depth and w rows; spot-check it numerically: for the
    // identity aspect and angle zero, column 3 depth = (pv_z + pv_w) / 2.
    let t = build_transform(FX_ONE, &camera_at(0)).unwrap();
    // pv column 3: z = m22 * (-R) + m32, w = R (computed from the exact
    // perspective entries above).
    let pv_z: i64 = 3145788 - 20972;
    let pv_w: i64 = 3 * FX_ONE;
    assert_eq!(t.c3r2, pv_z / 2 + pv_w / 2);
}

#[test]
fn transform_rejects_non_positive_aspect() {
    assert_eq!(
        build_transform(0, &camera_at(0)).unwrap_err(),
        RenderError::InvalidAspectRatio
    );
    assert_eq!(
        build_transform(-5 * FX_ONE, &camera_at(123)).unwrap_err(),
        RenderError::InvalidAspectRatio
    );
    assert!(build_transform(1, &camera_at(0)).is_ok());
}

#[test]
fn transform_is_deterministic() {
    let a = build_transform(1398101, &camera_at(4321)).unwrap();
    let b = build_transform(1398101, &camera_at(4321)).unwrap();
    assert_eq!(a, b);
}

#[test]
fn matrix_columns_layout_is_column_major() {
    let m = Mat4 {
        c0r0: 1, c0r1: 2, c0r2: 3, c0r3: 4,
        c1r0: 5, c1r1: 6, c1r2: 7, c1r3: 8,
        c2r0: 9, c2r1: 10, c2r2: 11, c2r3: 12,
        c3r0: 13, c3r1: 14, c3r2: 15, c3r3: 16,
    };
    let cols = matrix_columns(&m);
    let expected: Vec<i64> = (1..=16).collect();
    assert_eq!(cols, expected);
}

fn real_total(aspect: f64, angle: f64) -> [f64; 16] {
    // Perspective for a 90-degree vertical field of view (focal scale 1).
    let (n, f) = (0.01f64, 1000.0f64);
    let mut p = [0.0f64; 16];
    p[0] = 1.0 / aspect;
    p[5] = 1.0;
    p[10] = (f + n) / (n - f);
    p[11] = -1.0;
    p[14] = 2.0 * f * n / (n - f);
    // Full look-at: eye on the orbit circle, looking at the origin, y up.
    let eye = [3.0 * angle.cos(), 0.0, 3.0 * angle.sin()];
    let dir = [-eye[0], -eye[1], -eye[2]];
    let len = (dir[0] * dir[0] + dir[1] * dir[1] + dir[2] * dir[2]).sqrt();
    let fv = [dir[0] / len, dir[1] / len, dir[2] / len];
    let up = [0.0, 1.0, 0.0];
    let s = [
        fv[1] * up[2] - fv[2] * up[1],
        fv[2] * up[0] - fv[0] * up[2],
        fv[0] * up[1] - fv[1] * up[0],
    ];
    let sl = (s[0] * s[0] + s[1] * s[1] + s[2] * s[2]).sqrt();
    let s = [s[0] / sl, s[1] / sl, s[2] / sl];
    let u = [
        s[1] * fv[2] - s[2] * fv[1],
        s[2] * fv[0] - s[0] * fv[2],
        s[0] * fv[1] - s[1] * fv[0],
    ];
    let dot = |a: [f64; 3], b: [f64; 3]| a[0] * b[0] + a[1] * b[1] + a[2] * b[2];
    let v = [
        s[0], u[0], -fv[0], 0.0,
        s[1], u[1], -fv[1], 0.0,
        s[2], u[2], -fv[2], 0.0,
        -dot(eye, s), -dot(eye, u), dot(eye, fv), 1.0,
    ];
    // Depth convention fix: z' = z/2 + w/2.
    let mut c = [0.0f64; 16];
    c[0] = 1.0;
    c[5] = 1.0;
    c[10] = 0.5;
    c[14] = 0.5;
    c[15] = 1.0;
    let mul = |a: [f64; 16], b: [f64; 16]| {
        let mut r = [0.0f64; 16];
        for col in 0..4 {
            for row in 0..4 {
                let mut acc = 0.0;
                for k in 0..4 {
                    acc += a[k * 4 + row] * b[col * 4 + k];
                }
                r[col * 4 + row] = acc;
            }
        }
        r
    };
    mul(c, mul(p, v))
}

#[test]
fn transform_tracks_real_projection_math() {
    let one = FX_ONE as f64;
    for (aspect_fx, raw) in [(FX_ONE, 0i64), (1864135, 157_080), (1398101, -62_832), (FX_ONE / 2, 31_416)] {
        let t = build_transform(aspect_fx, &camera_at(raw)).unwrap();
        let cols = matrix_columns(&t);
        let expected = real_total(aspect_fx as f64 / one, raw as f64 / 100_000.0);
        for i in 0..16 {
            assert!(
                (cols[i] as f64 / one - expected[i]).abs() < 0.01,
                "entry {} differs: {} vs {}",
                i,
                cols[i] as f64 / one,
                expected[i]
            );
        }
    }
}
