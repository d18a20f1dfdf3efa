use quad_render::camera::Camera;
use quad_render::matrix::Matrix4x4;
use quad_render::rational::{Quat, Rat, Vec3};

/// Determinant of the numerator matrix, by cofactors along the first
/// row; small enough inputs that every product fits.
fn det4(m: &Matrix4x4) -> i128 {
    let det2 = |a: i128, b: i128, c: i128, d: i128| a * d - b * c;
    let det3 = |a: i128, b: i128, c: i128, d: i128, e: i128, f: i128, g: i128, h: i128, i: i128| {
        a * det2(e, f, h, i) - b * det2(d, f, g, i) + c * det2(d, e, g, h)
    };
    m.m00 * det3(m.m11, m.m12, m.m13, m.m21, m.m22, m.m23, m.m31, m.m32, m.m33)
        - m.m01 * det3(m.m10, m.m12, m.m13, m.m20, m.m22, m.m23, m.m30, m.m32, m.m33)
        + m.m02 * det3(m.m10, m.m11, m.m13, m.m20, m.m21, m.m23, m.m30, m.m31, m.m33)
        - m.m03 * det3(m.m10, m.m11, m.m12, m.m20, m.m21, m.m22, m.m30, m.m31, m.m32)
}

fn entry_as_f64(numerator: i128, denominator: i128) -> f64 {
    numerator as f64 / denominator as f64
}

#[test]
fn default_view_is_identity() {
    let camera = Camera::new();
    let view = camera.view();
    assert_eq!(view, Matrix4x4::identity());
}

#[test]
fn view_translates_by_negated_position() {
    let mut camera = Camera::new();
    camera.set_position(Vec3::new(1, 2, 3, 1));
    let view = camera.view();
    assert_eq!(view.den, 1);
    assert_eq!((view.m00, view.m11, view.m22, view.m33), (1, 1, 1, 1));
    assert_eq!((view.m03, view.m13, view.m23), (-1, -2, -3));
    assert_eq!((view.m30, view.m31, view.m32), (0, 0, 0));
}

#[test]
fn view_inverts_quarter_turn_about_z() {
    let mut camera = Camera::new();
    // a quarter turn about the z axis, unnormalised: (0, 0, 1, 1)
    camera.set_orientation(Quat::new(0, 0, 1, 1, 1));
    let view = camera.view();
    assert_eq!(view.den, 2);
    // the transpose of the rotation: world x maps to camera -y
    assert_eq!((view.m00, view.m01, view.m10, view.m11), (0, 2, -2, 0));
    assert_eq!((view.m22, view.m33), (2, 2));
}

#[test]
fn projection_first_entry_matches_cotangent() {
    // 45 degree field of view, unit aspect, near 0.1, far 100
    let camera = Camera::new();
    let projection = camera.projection();
    let got = entry_as_f64(projection.m00, projection.den);
    let expected = 1.0 / (45.0f64.to_radians() / 2.0).tan();
    assert!((got - expected).abs() < 1e-6);
}

#[test]
fn projection_is_nonsingular() {
    let camera = Camera::new();
    let projection = camera.projection();
    assert!(projection.den > 0);
    assert_ne!(det4(&projection), 0);

    let mut other = Camera::new();
    other.set_perspective(
        Rat::new(3, 2),
        Rat::new(16, 9),
        Rat::new(1, 2),
        Rat::new(250, 1),
    );
    let projection = other.projection();
    assert!(projection.den > 0);
    assert_ne!(det4(&projection), 0);
}

#[test]
fn projection_is_deterministic() {
    let camera = Camera::new();
    let first = camera.projection();
    let second = camera.projection();
    assert_eq!(first, second);
}

#[test]
fn degenerate_perspective_yields_identity() {
    let mut camera = Camera::new();
    // near beyond far: no frustum
    camera.set_perspective(Rat::new(1, 1), Rat::new(1, 1), Rat::new(2, 1), Rat::new(1, 1));
    assert_eq!(camera.projection(), Matrix4x4::identity());

    let mut flat = Camera::new();
    // an aspect ratio of zero is rejected as well
    flat.set_perspective(Rat::new(1, 1), Rat::new(0, 1), Rat::new(1, 10), Rat::new(100, 1));
    assert_eq!(flat.projection(), Matrix4x4::identity());
}

#[test]
fn combined_transform_of_default_camera_is_the_projection() {
    let camera = Camera::new();
    // the default view is the identity with denominator one, so the
    // product collapses to the projection
    assert_eq!(camera.model_view_projection(), camera.projection());
}

#[test]
fn column_major_layout_lists_columns_in_turn() {
    let mut camera = Camera::new();
    camera.set_position(Vec3::new(1, 2, 3, 1));
    let view = camera.view();
    let flat = view.column_major_numerators();
    assert_eq!(flat.len(), 16);
    assert_eq!(flat[0], view.m00);
    assert_eq!(flat[1], view.m10);
    assert_eq!(flat[12], view.m03);
    assert_eq!(flat[13], view.m13);
    assert_eq!(flat[15], view.m33);
}
