use learn_ogl_rs::camera::direction::{AngleTrig, Direction};
use learn_ogl_rs::camera::{Camera, MovementKey};
use learn_ogl_rs::vec3::Vec3;

/// Trig sample for the startup orientation: yaw -90 degrees, pitch 0.
fn default_trig() -> AngleTrig {
    AngleTrig::new(0, -1000, 1000, 0)
}

fn trig_of_degrees(yaw_deg: f64, pitch_deg: f64) -> AngleTrig {
    AngleTrig::new(
        (yaw_deg.to_radians().cos() * 1000.0).round() as i64,
        (yaw_deg.to_radians().sin() * 1000.0).round() as i64,
        (pitch_deg.to_radians().cos() * 1000.0).round() as i64,
        (pitch_deg.to_radians().sin() * 1000.0).round() as i64,
    )
}

#[test]
fn default_pose() {
    let c = Camera::new();
    assert_eq!(c.pos(), Vec3::new(0, 0, 3000));
    assert_eq!(c.yaw(), -90_000);
    assert_eq!(c.pitch(), 0);
}

#[test]
fn default_forward_looks_down_negative_z() {
    let c = Camera::new();
    let f = c.forward(&default_trig());
    assert_eq!(f, Vec3::new(0, 0, -1000));
}

#[test]
fn forward_is_unit_for_exact_trig() {
    // 600^2 + 800^2 and 280^2 + 960^2 are exact Pythagorean milli pairs,
    // so the forward vector's squared norm is exactly one squared unit.
    let c = Camera::new();
    let f = c.forward(&AngleTrig::new(600, 800, 280, 960));
    assert_eq!(f, Vec3::new(168, 960, 224));
    assert_eq!(f.x * f.x + f.y * f.y + f.z * f.z, 1_000_000);
}

#[test]
fn forward_is_unit_within_rounding_for_float_trig() {
    let c = Camera::new();
    for (yaw, pitch) in [(37.3, -12.9), (-154.0, 88.0), (720.5, 45.0), (0.0, 0.0)] {
        let f = c.forward(&trig_of_degrees(yaw, pitch));
        let norm =
            (((f.x * f.x + f.y * f.y + f.z * f.z) as f64).sqrt()) / 1000.0;
        assert!((norm - 1.0).abs() < 3e-3, "norm {norm} for yaw {yaw} pitch {pitch}");
    }
}

#[test]
fn pitch_clamps_to_upper_bound() {
    let mut c = Camera::new();
    c.set_pitch(200_000);
    assert_eq!(c.pitch(), 89_000);
}

#[test]
fn pitch_clamps_to_lower_bound() {
    let mut c = Camera::new();
    c.set_pitch(-123_456);
    assert_eq!(c.pitch(), -89_000);
}

#[test]
fn pitch_within_range_is_kept() {
    let mut c = Camera::new();
    c.set_pitch(-42_500);
    assert_eq!(c.pitch(), -42_500);
}

#[test]
fn adjust_yaw_equals_set_of_sum() {
    for delta in [735_000i64, -90_250, 400_000, 0] {
        let mut a = Camera::new();
        let mut b = Camera::new();
        a.adjust_yaw(delta);
        b.set_yaw(b.yaw() + delta);
        assert_eq!(a.yaw(), b.yaw());
        assert_eq!(a.pitch(), b.pitch());
    }
}

#[test]
fn adjust_pitch_equals_set_of_sum() {
    for delta in [30_000i64, -200_000, 95_000] {
        let mut a = Camera::new();
        let mut b = Camera::new();
        a.adjust_pitch(delta);
        let stored = b.pitch();
        b.set_pitch(stored + delta);
        assert_eq!(a.pitch(), b.pitch());
    }
}

#[test]
fn movement_without_keys_is_still() {
    for dt in [0i64, 16, 1000, 999_999] {
        let mut c = Camera::new();
        c.handle_movement(&vec![], &default_trig(), dt);
        assert_eq!(c.pos(), Vec3::new(0, 0, 3000));
    }
}

#[test]
fn opposing_keys_cancel() {
    let mut c = Camera::new();
    let keys = vec![
        MovementKey::Forward,
        MovementKey::Backward,
        MovementKey::StrafeLeft,
        MovementKey::StrafeRight,
    ];
    c.handle_movement(&keys, &default_trig(), 1000);
    assert_eq!(c.pos(), Vec3::new(0, 0, 3000));
}

#[test]
fn forward_and_backward_cancel() {
    let mut c = Camera::new();
    c.handle_movement(
        &vec![MovementKey::Forward, MovementKey::Backward],
        &default_trig(),
        500,
    );
    assert_eq!(c.pos(), Vec3::new(0, 0, 3000));
}

#[test]
fn pressing_forward_for_one_second_moves_two_units() {
    // From (0, 0, 3) looking down negative z at speed 2: one second of
    // forward lands at (0, 0, 1).
    let mut c = Camera::new();
    c.handle_movement(&vec![MovementKey::Forward], &default_trig(), 1000);
    assert_eq!(c.pos(), Vec3::new(0, 0, 1000));
}

#[test]
fn strafing_right_moves_along_positive_x() {
    let mut c = Camera::new();
    c.handle_movement(&vec![MovementKey::StrafeRight], &default_trig(), 1000);
    assert_eq!(c.pos(), Vec3::new(2000, 0, 3000));
}

#[test]
fn strafing_left_moves_along_negative_x() {
    let mut c = Camera::new();
    c.handle_movement(&vec![MovementKey::StrafeLeft], &default_trig(), 1000);
    assert_eq!(c.pos(), Vec3::new(-2000, 0, 3000));
}

#[test]
fn diagonal_movement_is_normalised() {
    // Forward plus strafe-right is normalised before scaling, so the
    // camera does not move faster on the diagonal.
    let mut c = Camera::new();
    c.handle_movement(
        &vec![MovementKey::Forward, MovementKey::StrafeRight],
        &default_trig(),
        1000,
    );
    assert_eq!(c.pos(), Vec3::new(1414, 0, 3000 - 1414));
}

#[test]
fn mouse_travel_turns_a_tenth_of_a_degree_per_pixel() {
    let mut c = Camera::new();
    // Five pixels right, three pixels up (upward travel is negative dy).
    c.handle_mouse_input(5000, -3000);
    assert_eq!(c.yaw(), -89_500);
    assert_eq!(c.pitch(), 300);
    // Pitch stays clamped however far the mouse travels.
    c.handle_mouse_input(0, -1_000_000_000);
    assert_eq!(c.pitch(), 89_000);
}

#[test]
fn direction_standalone_clamps_and_accumulates() {
    let mut d = Direction::new();
    assert_eq!(d.yaw(), -90_000);
    assert_eq!(d.pitch(), 0);
    d.adjust_pitch(50_000);
    assert_eq!(d.pitch(), 50_000);
    d.adjust_pitch(50_000);
    assert_eq!(d.pitch(), 89_000);
    d.adjust_yaw(450_000);
    assert_eq!(d.yaw(), 360_000);
}
