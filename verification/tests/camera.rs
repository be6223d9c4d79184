use orbit_camera::camera::{compose, Camera, CameraUniform};
use orbit_camera::linalg::{Mat4, Vec3};

fn v(x: f32, y: f32, z: f32) -> Vec3 {
    Vec3::new(x.to_bits(), y.to_bits(), z.to_bits())
}

fn m(entries: [f32; 16]) -> Mat4 {
    Mat4::from_cols_array(entries.map(f32::to_bits))
}

fn entries(a: &Mat4) -> [f32; 16] {
    a.to_cols_array().map(f32::from_bits)
}

fn close(a: f32, b: f32) -> bool {
    (a - b).abs() <= 1.0e-4
}

const IDENTITY: [f32; 16] = [
    1.0, 0.0, 0.0, 0.0, 0.0, 1.0, 0.0, 0.0, 0.0, 0.0, 1.0, 0.0, 0.0, 0.0, 0.0, 1.0,
];

// Maps depth from [-1, 1] to [0, 1]: z' = (z + w) / 2.
const HALVE_DEPTH: [f32; 16] = [
    1.0, 0.0, 0.0, 0.0, 0.0, 1.0, 0.0, 0.0, 0.0, 0.0, 0.5, 0.0, 0.0, 0.0, 0.5, 1.0,
];

fn camera(correction: [f32; 16]) -> Camera {
    Camera {
        eye: v(0.0, 0.0, 5.0),
        target: v(0.0, 0.0, 0.0),
        up: v(0.0, 1.0, 0.0),
        aspect: 1.0f32.to_bits(),
        fovy: 45.0f32.to_radians().to_bits(),
        znear: 0.1f32.to_bits(),
        zfar: 100.0f32.to_bits(),
        clip_correction: m(correction),
    }
}

#[test]
fn view_projection_of_a_camera_on_the_z_axis() {
    let cam = camera(IDENTITY);
    let vp = entries(&cam.build_view_projection_matrix());
    assert!(vp.iter().all(|e| !e.is_nan()));
    let h = 1.0 / (45.0f32.to_radians() / 2.0).tan();
    let r = 100.0f32 / (0.1 - 100.0);
    let expected = [
        h, 0.0, 0.0, 0.0,
        0.0, h, 0.0, 0.0,
        0.0, 0.0, r, -1.0,
        0.0, 0.0, r * 0.1 - 5.0 * r, 5.0,
    ];
    for i in 0..16 {
        assert!(close(vp[i], expected[i]), "entry {i}: {} vs {}", vp[i], expected[i]);
    }
    // Right-handed: points in front of the eye (negative z in view space)
    // get a positive w, and depth grows with distance.
    assert!(vp[11] < 0.0 && vp[10] < 0.0);
}

#[test]
fn view_projection_is_correction_times_projection_times_view() {
    let cam = camera(HALVE_DEPTH);
    let by_parts = compose(&cam.clip_correction, &cam.projection_matrix(), &cam.view_matrix());
    assert_eq!(cam.build_view_projection_matrix().to_cols_array(), by_parts.to_cols_array());
    let plain = entries(&camera(IDENTITY).build_view_projection_matrix());
    let corrected = entries(&cam.build_view_projection_matrix());
    for col in 0..4 {
        let z = plain[4 * col + 2];
        let w = plain[4 * col + 3];
        assert!(close(corrected[4 * col + 2], 0.5 * z + 0.5 * w));
        assert!(close(corrected[4 * col + 3], w));
        assert_eq!(corrected[4 * col], plain[4 * col]);
        assert_eq!(corrected[4 * col + 1], plain[4 * col + 1]);
    }
}

#[test]
fn compose_multiplies_left_to_right() {
    let mut double = IDENTITY;
    double[0] = 2.0;
    double[5] = 2.0;
    double[10] = 2.0;
    let mut shift = IDENTITY;
    shift[12] = 1.0;
    let mut lift = IDENTITY;
    lift[13] = 3.0;
    // double * shift * lift: lift acts first, then shift, then double.
    let r = entries(&compose(&m(double), &m(shift), &m(lift)));
    assert_eq!(&r[12..], &[2.0, 6.0, 0.0, 1.0]);
    assert_eq!(r[0], 2.0);
}

#[test]
fn building_twice_gives_the_same_bits() {
    let cam = camera(HALVE_DEPTH);
    let first = cam.build_view_projection_matrix().to_cols_array();
    let second = cam.build_view_projection_matrix().to_cols_array();
    assert_eq!(first, second);
}

#[test]
fn set_aspect_changes_the_projection_only() {
    let mut cam = camera(IDENTITY);
    let view_before = cam.view_matrix().to_cols_array();
    let before = entries(&cam.build_view_projection_matrix());
    cam.set_aspect(2.0f32.to_bits());
    assert_eq!(f32::from_bits(cam.aspect), 2.0);
    assert_eq!(cam.eye, v(0.0, 0.0, 5.0));
    assert_eq!(cam.target, v(0.0, 0.0, 0.0));
    assert_eq!(cam.up, v(0.0, 1.0, 0.0));
    assert_eq!(cam.view_matrix().to_cols_array(), view_before);
    let after = entries(&cam.build_view_projection_matrix());
    assert!(close(after[0], before[0] / 2.0));
    for i in 1..16 {
        assert_eq!(after[i], before[i], "entry {i}");
    }
}

#[test]
fn view_matrix_of_the_camera_is_look_at() {
    let cam = camera(IDENTITY);
    let mut expected = IDENTITY;
    expected[14] = -5.0;
    assert_eq!(entries(&cam.view_matrix()), expected);
}

#[test]
fn new_uniform_is_zeroed() {
    assert_eq!(CameraUniform::new().view_proj, [0u32; 16]);
}

#[test]
fn update_view_proj_stores_the_current_matrix() {
    let mut cam = camera(HALVE_DEPTH);
    let mut uniform = CameraUniform::new();
    uniform.update_view_proj(&cam);
    assert_eq!(uniform.view_proj, cam.build_view_projection_matrix().to_cols_array());
    assert_ne!(uniform.view_proj, [0u32; 16]);
    let stale = uniform.view_proj;
    cam.eye = v(1.0, 2.0, 3.0);
    assert_eq!(uniform.view_proj, stale);
    uniform.update_view_proj(&cam);
    assert_ne!(uniform.view_proj, stale);
}

#[test]
fn degenerate_camera_gives_nan_not_a_failure() {
    let mut cam = camera(IDENTITY);
    cam.eye = cam.target;
    let vp = entries(&cam.build_view_projection_matrix());
    assert!(vp.iter().any(|e| e.is_nan()));
}

#[test]
fn well_posed_camera_is_recognised() {
    assert!(camera(IDENTITY).is_well_posed());
    let mut far = camera(IDENTITY);
    far.eye = v(0.0, -0.0, 0.0);
    far.target = v(0.0, 0.0, 1.0e-30);
    assert!(far.is_well_posed());
}

#[test]
fn eye_on_target_is_not_well_posed() {
    let mut cam = camera(IDENTITY);
    cam.eye = v(0.0, -0.0, 0.0);
    cam.target = v(-0.0, 0.0, 0.0);
    assert!(!cam.is_well_posed());
    cam.eye = v(f32::NAN, 0.0, 0.0);
    assert!(!cam.is_well_posed());
}

#[test]
fn bad_lens_is_not_well_posed() {
    let mut cam = camera(IDENTITY);
    cam.aspect = 0.0f32.to_bits();
    assert!(!cam.is_well_posed());
    cam.aspect = (-1.0f32).to_bits();
    assert!(!cam.is_well_posed());

    let mut cam = camera(IDENTITY);
    cam.fovy = 0.0f32.to_bits();
    assert!(!cam.is_well_posed());
    cam.fovy = std::f32::consts::PI.to_bits();
    assert!(!cam.is_well_posed());
    cam.fovy = 3.0f32.to_bits();
    assert!(cam.is_well_posed());
    cam.fovy = f32::NAN.to_bits();
    assert!(!cam.is_well_posed());

    let mut cam = camera(IDENTITY);
    cam.znear = 0.0f32.to_bits();
    assert!(!cam.is_well_posed());
    cam.znear = 100.0f32.to_bits();
    assert!(!cam.is_well_posed());
    cam.znear = 200.0f32.to_bits();
    assert!(!cam.is_well_posed());
    cam.znear = 99.0f32.to_bits();
    assert!(cam.is_well_posed());
}

#[test]
fn pi_constant_is_the_float_pi() {
    assert_eq!(orbit_camera::scalar::PI, std::f32::consts::PI.to_bits());
    assert_eq!(orbit_camera::scalar::NEGATIVE_ONE, (-1.0f32).to_bits());
    assert_eq!(orbit_camera::scalar::INFINITY, f32::INFINITY.to_bits());
}

#[test]
fn set_aspect_keeps_a_well_posed_camera_well_posed() {
    let mut cam = camera(IDENTITY);
    cam.set_aspect(1.5f32.to_bits());
    assert!(cam.is_well_posed());
}

#[test]
fn projection_has_the_perspective_shape() {
    let p = camera(HALVE_DEPTH).projection_matrix().to_cols_array();
    for i in [1, 2, 3, 4, 6, 7, 8, 9, 12, 13, 15] {
        assert_eq!(p[i], 0, "entry {i}");
    }
    assert_eq!(p[11], (-1.0f32).to_bits());
    let h = 1.0 / (45.0f32.to_radians() / 2.0).tan();
    assert!(close(f32::from_bits(p[0]), h));
    assert!(close(f32::from_bits(p[5]), h));
    assert!(close(f32::from_bits(p[10]), 100.0 / (0.1 - 100.0)));
    assert!(close(f32::from_bits(p[14]), 0.1 * 100.0 / (0.1 - 100.0)));
}

#[test]
fn projection_entries_follow_the_lens() {
    let mut cam = camera(IDENTITY);
    cam.aspect = 1.6f32.to_bits();
    let p = cam.projection_matrix().to_cols_array();
    let y_scale = f32::from_bits(p[5]);
    assert_eq!(p[0], (y_scale / 1.6f32).to_bits());
    let depth_scale = 100.0f32 / (0.1f32 - 100.0f32);
    assert_eq!(p[10], depth_scale.to_bits());
    assert_eq!(p[14], (depth_scale * 0.1f32).to_bits());
}

#[test]
fn projection_depth_entries_follow_the_clip_distances() {
    let mut cam = camera(IDENTITY);
    cam.znear = 1.0f32.to_bits();
    cam.zfar = 3.0f32.to_bits();
    let p = cam.projection_matrix().to_cols_array();
    assert_eq!(f32::from_bits(p[10]), -1.5);
    assert_eq!(f32::from_bits(p[14]), -1.5);
    cam.znear = 2.0f32.to_bits();
    cam.zfar = 4.0f32.to_bits();
    let p = cam.projection_matrix().to_cols_array();
    assert_eq!(f32::from_bits(p[10]), -2.0);
    assert_eq!(f32::from_bits(p[14]), -4.0);
}

#[test]
fn projection_of_a_bad_lens_is_canonical() {
    let mut cam = camera(IDENTITY);
    cam.znear = 5.0f32.to_bits();
    cam.zfar = 5.0f32.to_bits();
    cam.aspect = 0xffc0_0007;
    let p = cam.projection_matrix().to_cols_array();
    assert_eq!(p[0], orbit_camera::scalar::CANONICAL_NAN);
    assert_eq!(f32::from_bits(p[10]), f32::INFINITY);
    assert_eq!(f32::from_bits(p[14]), f32::INFINITY);
    assert_eq!(p[11], (-1.0f32).to_bits());
}

#[test]
fn aspect_rescales_clip_x_only() {
    let mut cam = camera(HALVE_DEPTH);
    cam.eye = v(1.0, 2.0, 3.0);
    cam.target = v(-0.5, 0.25, 0.0);
    cam.aspect = 1.25f32.to_bits();
    let first = entries(&cam.build_view_projection_matrix());
    cam.set_aspect(2.5f32.to_bits());
    let second = entries(&cam.build_view_projection_matrix());
    for col in 0..4 {
        let expected = first[4 * col] * (1.25 / 2.5);
        let got = second[4 * col];
        assert!((got - expected).abs() <= 1.0e-6 * expected.abs(), "column {col}: {got} vs {expected}");
        for row in 1..4 {
            assert_eq!(second[4 * col + row], first[4 * col + row], "row {row}, column {col}");
        }
    }
    assert!(first.iter().all(|e| !e.is_nan()));
    assert!(first[0] != 0.0);
}
