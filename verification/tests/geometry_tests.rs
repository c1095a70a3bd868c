use balthazar::geometry::{
    axis_gap, closer_than, distance_squared, distance_squared_within, extend_toward,
    farther_than, is_path_in_world, is_taut, isqrt, isqrt_wide, rounded_quotient,
    scale_component,
    within_distance,
};
use balthazar::{Point, WORLD_MAX};

fn p(x: i64, y: i64) -> Point {
    Point::new(x, y)
}

#[test]
fn axis_gap_is_the_absolute_difference() {
    assert_eq!(axis_gap(3, 10), 7);
    assert_eq!(axis_gap(10, 3), 7);
    assert_eq!(axis_gap(-4, -4), 0);
    assert_eq!(axis_gap(i64::MIN, i64::MAX), u64::MAX as u128);
    assert_eq!(axis_gap(i64::MAX, i64::MIN), u64::MAX as u128);
}

#[test]
fn squared_distance_of_a_pythagorean_triangle() {
    assert_eq!(distance_squared(p(0, 0), p(3, 4)), 25);
    assert_eq!(distance_squared(p(-1, -1), p(2, 3)), 25);
    assert_eq!(distance_squared(p(7, 7), p(7, 7)), 0);
    assert_eq!(
        distance_squared(p(-WORLD_MAX, -WORLD_MAX), p(WORLD_MAX, WORLD_MAX)),
        8 * (WORLD_MAX as u128) * (WORLD_MAX as u128)
    );
}

#[test]
fn range_checks_are_exact_at_the_boundary() {
    let origin = p(0, 0);
    let on_circle = p(3, 4);
    assert!(within_distance(origin, on_circle, 5));
    assert!(!within_distance(origin, on_circle, 4));
    assert!(!closer_than(origin, on_circle, 5));
    assert!(closer_than(origin, on_circle, 6));
    assert!(!farther_than(origin, on_circle, 5));
    assert!(farther_than(origin, on_circle, 4));
    assert_eq!(distance_squared_within(origin, on_circle, 5), Some(25));
    assert_eq!(distance_squared_within(origin, on_circle, 4), None);
    assert!(within_distance(origin, origin, 0));
    assert!(!closer_than(origin, origin, 0));
}

#[test]
fn range_checks_hold_at_the_ends_of_the_number_line() {
    let low = p(i64::MIN, i64::MIN);
    let high = p(i64::MAX, i64::MAX);
    assert!(!within_distance(low, high, u32::MAX));
    assert!(!closer_than(low, high, u32::MAX));
    assert!(farther_than(low, high, u32::MAX));
    assert_eq!(distance_squared_within(low, high, u32::MAX), None);
    assert!(within_distance(high, p(i64::MAX - 3, i64::MAX - 4), 5));
    assert!(is_taut(low, high, u32::MAX));
    let far = p(u32::MAX as i64, 0);
    assert!(within_distance(p(0, 0), far, u32::MAX));
    assert_eq!(
        distance_squared_within(p(0, 0), far, u32::MAX),
        Some(u32::MAX as u64 * u32::MAX as u64)
    );
}

#[test]
fn taut_means_at_least_ninety_five_percent() {
    let pole = p(0, 0);
    // Exactly 95% of 80 units.
    assert!(is_taut(p(76_000, 0), pole, 80_000));
    assert!(!is_taut(p(75_999, 0), pole, 80_000));
    assert!(is_taut(p(76_800, 0), pole, 80_000));
    assert!(!is_taut(p(72_000, 0), pole, 80_000));
    // 57² + 76² = 95²: exactly 95% of 100 off the axes.
    assert!(is_taut(p(57, 76), pole, 100));
    assert!(!is_taut(p(57, 75), pole, 100));
    // A cord of no length is always taut.
    assert!(is_taut(pole, pole, 0));
    assert!(!is_taut(pole, pole, 1));
}

#[test]
fn integer_square_root_rounds_down() {
    assert_eq!(isqrt(0), 0);
    assert_eq!(isqrt(1), 1);
    assert_eq!(isqrt(2), 1);
    assert_eq!(isqrt(3), 1);
    assert_eq!(isqrt(4), 2);
    assert_eq!(isqrt(24), 4);
    assert_eq!(isqrt(25), 5);
    assert_eq!(isqrt(1_000_000_000_000), 1_000_000);
    assert_eq!(isqrt(999_999_999_999), 999_999);
    assert_eq!(isqrt(u64::MAX), u32::MAX);
    assert_eq!(isqrt(u32::MAX as u64 * u32::MAX as u64 - 1), u32::MAX - 1);
}

#[test]
fn quotients_round_to_nearest_with_halves_away_from_zero() {
    assert_eq!(rounded_quotient(5, 2), 3);
    assert_eq!(rounded_quotient(-5, 2), -3);
    assert_eq!(rounded_quotient(1, 3), 0);
    assert_eq!(rounded_quotient(2, 3), 1);
    assert_eq!(rounded_quotient(-1, 3), 0);
    assert_eq!(rounded_quotient(-2, 3), -1);
    assert_eq!(rounded_quotient(0, 7), 0);
    assert_eq!(rounded_quotient(14, 7), 2);
    assert_eq!(rounded_quotient(7, 1), 7);
    assert_eq!(rounded_quotient(1 << 100, 1 << 100), 1);
    assert_eq!(rounded_quotient(-(1 << 100), 2), -(1 << 99));
}

#[test]
fn components_scale_with_the_vector() {
    assert_eq!(scale_component(3, 5, 10), 6);
    assert_eq!(scale_component(-4, 5, 10), -8);
    assert_eq!(scale_component(0, 0, 10), 0);
    assert_eq!(scale_component(1, 3, 1), 0);
    assert_eq!(scale_component(2, 3, 1), 1);
    assert_eq!(scale_component(5, 5, 0), 0);
}

#[test]
fn extending_walks_the_given_length_along_the_direction() {
    assert_eq!(extend_toward(p(0, 0), p(3_000, 4_000), 10_000), p(6_000, 8_000));
    assert_eq!(extend_toward(p(1_000, 1_000), p(1_000, -5_000), 2_000), p(1_000, -1_000));
    assert_eq!(extend_toward(p(0, 0), p(-8_000, 6_000), 5_000), p(-4_000, 3_000));
    assert_eq!(extend_toward(p(9, 9), p(9, 9), 5_000), p(9, 9));
    assert_eq!(extend_toward(p(0, 0), p(3_000, 4_000), 0), p(0, 0));
}

#[test]
fn paths_in_the_world_are_told_from_those_outside() {
    assert!(is_path_in_world(&vec![]));
    assert!(is_path_in_world(&vec![p(0, 0), p(WORLD_MAX, -WORLD_MAX)]));
    assert!(!is_path_in_world(&vec![p(0, 0), p(WORLD_MAX + 1, 0)]));
    assert!(!is_path_in_world(&vec![p(0, -WORLD_MAX - 1)]));
    assert!(p(WORLD_MAX, WORLD_MAX).is_in_world());
    assert!(!p(0, WORLD_MAX + 1).is_in_world());
}

#[test]
fn wide_square_root_covers_every_number() {
    assert_eq!(isqrt_wide(0), 0);
    assert_eq!(isqrt_wide(1), 1);
    assert_eq!(isqrt_wide(99), 9);
    assert_eq!(isqrt_wide(100), 10);
    assert_eq!(isqrt_wide(1 << 64), 1 << 32);
    assert_eq!(isqrt_wide((1 << 64) - 1), (1 << 32) - 1);
    assert_eq!(isqrt_wide(u128::MAX), u64::MAX);
    assert_eq!(isqrt_wide(u64::MAX as u128 * u64::MAX as u128), u64::MAX);
    assert_eq!(isqrt_wide(u64::MAX as u128 * u64::MAX as u128 - 1), u64::MAX - 1);
}
