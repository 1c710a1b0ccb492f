//! The fixed-point geometry: rounding, square roots, normalisation.

use tank_combat::geom::{
    div_trunc, dot, isqrt, lerp_milli, lerp_scalar, normalize_milli, Vec2,
};

#[test]
fn division_truncates_toward_zero() {
    assert_eq!(div_trunc(7, 2), 3);
    assert_eq!(div_trunc(-7, 2), -3);
    assert_eq!(div_trunc(999, 1000), 0);
    assert_eq!(div_trunc(-999, 1000), 0);
    assert_eq!(div_trunc(0, 5), 0);
}

#[test]
fn integer_square_roots_are_exact() {
    assert_eq!(isqrt(0), 0);
    assert_eq!(isqrt(1), 1);
    assert_eq!(isqrt(2), 1);
    assert_eq!(isqrt(3), 1);
    assert_eq!(isqrt(4), 2);
    assert_eq!(isqrt(15), 3);
    assert_eq!(isqrt(16), 4);
    assert_eq!(isqrt(1_000_000), 1000);
    assert_eq!(isqrt(2_000_000_000_000_000_000), 1_414_213_562);
}

#[test]
fn normalisation_scales_to_unit_length() {
    assert_eq!(normalize_milli(Vec2 { x: 5000, y: 0 }), Vec2 { x: 1000, y: 0 });
    assert_eq!(normalize_milli(Vec2 { x: 0, y: -3 }), Vec2 { x: 0, y: -1000 });
    assert_eq!(normalize_milli(Vec2 { x: 70_000, y: 70_000 }), Vec2 { x: 707, y: 707 });
    // a short vector rounds coarsely: its length 99 is already floored to 98
    assert_eq!(normalize_milli(Vec2 { x: 70, y: 70 }), Vec2 { x: 714, y: 714 });
    assert_eq!(normalize_milli(Vec2 { x: -300, y: 400 }), Vec2 { x: -600, y: 800 });
}

#[test]
fn interpolation_hits_its_endpoints() {
    let a = Vec2 { x: 1000, y: 0 };
    let b = Vec2 { x: 0, y: -1000 };
    assert_eq!(lerp_milli(a, b, 0), a);
    assert_eq!(lerp_milli(a, b, 1000), b);
    assert_eq!(lerp_milli(a, b, 500), Vec2 { x: 500, y: -500 });

    assert_eq!(lerp_scalar(0, 200, 50), 10);
    assert_eq!(lerp_scalar(10, 0, 100), 9);
    assert_eq!(lerp_scalar(-100, 100, 250), -50);
}

#[test]
fn dot_products_and_vector_sums() {
    let a = Vec2 { x: 707, y: 707 };
    let b = Vec2 { x: 1000, y: 0 };
    assert_eq!(dot(a, b), 707_000);
    assert_eq!(dot(a, a), 999_698);
    assert_eq!(Vec2::zero(), Vec2 { x: 0, y: 0 });
    assert_eq!(a.plus(b), Vec2 { x: 1707, y: 707 });
    assert_eq!(a.minus(b), Vec2 { x: -293, y: 707 });
}
