use source_movement::fx::SCALE;
use source_movement::vec3::{length, lerp, normalize_or_zero, Vec3Fx};

#[test]
fn length_of_a_pythagorean_triple_is_exact() {
    let v = Vec3Fx::new(3_000_000, 4_000_000, 0);
    assert_eq!(length(v), 5_000_000);
}

#[test]
fn length_of_zero_is_zero() {
    assert_eq!(length(Vec3Fx::new(0, 0, 0)), 0);
}

#[test]
fn normalize_shrinks_a_long_axis_vector_to_unit() {
    let v = Vec3Fx::new(2_000_000, 0, 0);
    let n = normalize_or_zero(v);
    assert_eq!(n, Vec3Fx::new(SCALE, 0, 0));
}

#[test]
fn normalize_of_zero_is_zero_not_an_error() {
    let n = normalize_or_zero(Vec3Fx::new(0, 0, 0));
    assert_eq!(n, Vec3Fx::new(0, 0, 0));
}

#[test]
fn normalize_of_a_diagonal_lands_on_the_truncated_unit() {
    // |(1, 0, 1)| = sqrt(2): each component becomes 1/sqrt(2), truncated
    // against the floored fixed-point length 1.414213.
    let n = normalize_or_zero(Vec3Fx::new(SCALE, 0, SCALE));
    assert_eq!(n, Vec3Fx::new(707_107, 0, 707_107));
}

#[test]
fn lerp_at_one_fully_adopts_the_target() {
    let a = Vec3Fx::new(1, 2, 3);
    let b = Vec3Fx::new(-400, 500, -600);
    assert_eq!(lerp(a, b, SCALE), b);
}

#[test]
fn lerp_at_zero_keeps_the_start() {
    let a = Vec3Fx::new(1, 2, 3);
    let b = Vec3Fx::new(-400, 500, -600);
    assert_eq!(lerp(a, b, 0), a);
}

#[test]
fn lerp_halfway_truncates_toward_zero() {
    let a = Vec3Fx::new(0, 0, 0);
    let b = Vec3Fx::new(5, 0, -5);
    let half = SCALE / 2;
    let m = lerp(a, b, half);
    assert_eq!(m, Vec3Fx::new(2, 0, -2));
}
