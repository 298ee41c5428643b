use gamepad_remap::shape::{clamp_axis, isqrt, mul_div, shape_circular, shape_linear, AXIS_MAX, SCALE};

#[test]
fn isqrt_small_values() {
    assert_eq!(isqrt(0), 0);
    assert_eq!(isqrt(1), 1);
    assert_eq!(isqrt(2), 1);
    assert_eq!(isqrt(3), 1);
    assert_eq!(isqrt(4), 2);
    assert_eq!(isqrt(999_999), 999);
    assert_eq!(isqrt(1_000_000), 1000);
}

#[test]
fn isqrt_large_values() {
    assert_eq!(isqrt(250_000_000_000), 500_000);
    assert_eq!(isqrt(2_000_000_000_000), 1_414_213);
    assert_eq!(isqrt(u128::MAX), u64::MAX);
}

#[test]
fn mul_div_truncates_toward_zero() {
    assert_eq!(mul_div(5, 3, 2), 7);
    assert_eq!(mul_div(-5, 3, 2), -7);
    assert_eq!(mul_div(0, 12345, 7), 0);
}

#[test]
fn clamp_axis_saturates() {
    assert_eq!(clamp_axis(32768), 32767);
    assert_eq!(clamp_axis(32767), 32767);
    assert_eq!(clamp_axis(-32768), -32768);
    assert_eq!(clamp_axis(-40000), -32768);
    assert_eq!(clamp_axis(123), 123);
}

#[test]
fn linear_inside_unit_square_is_direct_scale() {
    // Half deflection on x, quarter on y: direct per-axis scale.
    let (x, y) = shape_linear(SCALE / 2, SCALE / 4);
    assert_eq!(x, 16384);
    assert_eq!(y, 8192);
}

#[test]
fn linear_overshoot_pulls_to_boundary() {
    // (2.0, 1.0): overshoot 2.0; direction kept, dominant axis on the
    // boundary.
    let (x, y) = shape_linear(2 * SCALE, SCALE);
    assert_eq!(x, 32767); // 2.0 * AXIS_MAX / 2.0 saturated into i16
    assert_eq!(y, 16384);
    // Negative coordinates keep their sign.
    let (x2, y2) = shape_linear(-2 * SCALE, SCALE);
    assert_eq!(x2, -32768);
    assert_eq!(y2, 16384);
}

#[test]
fn circular_inside_limit_is_direct_scale() {
    let (x, y) = shape_circular(SCALE / 2, 0, SCALE);
    assert_eq!(x, 16384);
    assert_eq!(y, 0);
}

#[test]
fn circular_outside_limit_projects_onto_circle() {
    // (1.0, 1.0) has hypot ~1.414: both axes scale by 1/hypot.
    let (x, y) = shape_circular(SCALE, SCALE, SCALE);
    assert_eq!(x, 23170);
    assert_eq!(y, 23170);
    // A lower radius cap scales the projection down.
    let (x2, y2) = shape_circular(2 * SCALE, 0, 800_000);
    assert_eq!(x2, 26214);
    assert_eq!(y2, 0);
}
