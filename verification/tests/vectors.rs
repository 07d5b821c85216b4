use drone_target::vec3::{dist, isqrt, Vec3};

#[test]
fn isqrt_small_values() {
    assert_eq!(isqrt(0), 0);
    assert_eq!(isqrt(1), 1);
    assert_eq!(isqrt(2), 1);
    assert_eq!(isqrt(3), 1);
    assert_eq!(isqrt(4), 2);
    assert_eq!(isqrt(144), 12);
    assert_eq!(isqrt(145), 12);
}

#[test]
fn isqrt_large_values() {
    assert_eq!(isqrt(1_000_000_000_000), 1_000_000);
    assert_eq!(isqrt(i64::MAX), 3_037_000_499);
}

#[test]
fn vector_arithmetic() {
    let a = Vec3::new(1_000, -2_000, 3_000);
    let b = Vec3::new(500, 500, -500);
    assert_eq!(a.add(b), Vec3::new(1_500, -1_500, 2_500));
    assert_eq!(a.sub(b), Vec3::new(500, -2_500, 3_500));
    assert_eq!(a.neg(), Vec3::new(-1_000, 2_000, -3_000));
    assert_eq!(a.dot(b), 1_000 * 500 + (-2_000) * 500 + 3_000 * (-500));
    assert!(Vec3::zero().is_zero());
    assert!(!a.is_zero());
}

#[test]
fn norm_of_pythagorean_triple() {
    let v = Vec3::new(3_000, 4_000, 0);
    assert_eq!(v.norm_sq(), 25_000_000);
    assert_eq!(v.norm(), 5_000);
}

#[test]
fn normalized_keeps_direction() {
    let v = Vec3::new(3_000, 4_000, 0);
    assert_eq!(v.normalized(), Vec3::new(600, 800, 0));
    let w = Vec3::new(-7, 0, 0);
    assert_eq!(w.normalized(), Vec3::new(-1000, 0, 0));
}

#[test]
fn distance_between_positions() {
    let a = Vec3::new(0, 0, 0);
    let b = Vec3::new(3_000, 4_000, 0);
    assert_eq!(dist(a, b), 5_000);
    assert_eq!(dist(b, a), 5_000);
    assert_eq!(dist(a, a), 0);
    // the floor of the real distance: sqrt(2) * 1000 rounded down
    assert_eq!(dist(a, Vec3::new(1_000, 1_000, 0)), 1_414);
}
