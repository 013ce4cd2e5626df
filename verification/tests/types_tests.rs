use vibe_asteroid::types::{clamp_i64, mul_milli, round_cell, round_unit, wrap_coordinate, Vector2D};

#[test]
fn wrap_keeps_values_in_range() {
    assert_eq!(wrap_coordinate(0, 1000), 0);
    assert_eq!(wrap_coordinate(999, 1000), 999);
    assert_eq!(wrap_coordinate(1000, 1000), 0);
    assert_eq!(wrap_coordinate(5000, 3000), 2000);
}

#[test]
fn wrap_corrects_negative_inputs_of_any_magnitude() {
    assert_eq!(wrap_coordinate(-1500, 80000), 78500);
    assert_eq!(wrap_coordinate(-1, 24000), 23999);
    // several whole field widths of overshoot in one frame
    assert_eq!(wrap_coordinate(-250_000, 80000), 70000);
    assert_eq!(wrap_coordinate(-80000, 80000), 0);
}

#[test]
fn vector_add_is_componentwise() {
    let a = Vector2D::new(3000, -2000);
    let b = Vector2D::new(-500, 700);
    let c = a.add(b);
    assert_eq!(c.x, 2500);
    assert_eq!(c.y, -1300);
}

#[test]
fn vector_scale_uses_milli_units() {
    let a = Vector2D::new(3000, -2000);
    let half = a.scale(500);
    assert_eq!(half.x, 1500);
    assert_eq!(half.y, -1000);
    let same = a.scale(1000);
    assert_eq!(same.x, 3000);
    assert_eq!(same.y, -2000);
}

#[test]
fn magnitude_of_a_pythagorean_vector_is_exact() {
    let v = Vector2D::new(3000, 4000);
    assert_eq!(v.magnitude(), 5000);
    assert_eq!(Vector2D::new(0, 0).magnitude(), 0);
    assert_eq!(Vector2D::new(-3000, 4000).magnitude(), 5000);
}

#[test]
fn normalize_scales_to_unit_length_and_zero_stays_zero() {
    let v = Vector2D::new(3000, 4000);
    let n = v.normalize();
    assert_eq!(n.x, 600);
    assert_eq!(n.y, 800);
    let m = Vector2D::new(-3000, 4000).normalize();
    assert_eq!(m.x, -600);
    assert_eq!(m.y, 800);
    let z = Vector2D::new(0, 0).normalize();
    assert_eq!(z.x, 0);
    assert_eq!(z.y, 0);
}

#[test]
fn round_cell_rounds_to_nearest_and_clamps() {
    assert_eq!(round_cell(1499), 1);
    assert_eq!(round_cell(1500), 2);
    assert_eq!(round_cell(0), 0);
    assert_eq!(round_cell(-5), 0);
    assert_eq!(round_cell(70_000_000), 65535);
}

#[test]
fn round_unit_rounds_halves_away_from_zero() {
    assert_eq!(round_unit(1000), 1);
    assert_eq!(round_unit(-1000), -1);
    assert_eq!(round_unit(1500), 2);
    assert_eq!(round_unit(-1500), -2);
    assert_eq!(round_unit(499), 0);
    assert_eq!(round_unit(-499), 0);
}

#[test]
fn clamp_limits_both_sides() {
    assert_eq!(clamp_i64(5, -3, 3), 3);
    assert_eq!(clamp_i64(-5, -3, 3), -3);
    assert_eq!(clamp_i64(2, -3, 3), 2);
}

#[test]
fn mul_milli_is_a_fixed_point_product() {
    assert_eq!(mul_milli(1500, 2000), 3000);
    assert_eq!(mul_milli(1000, 980), 980);
    assert_eq!(mul_milli(-1000, 980), -980);
}
