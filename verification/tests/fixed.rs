use explora::fixed::{ease, saturate, saturate_i32, to_pixels, MICRO};

#[test]
fn one_is_a_million_millionths() {
    assert_eq!(MICRO, 1_000_000);
}

#[test]
fn ease_moves_by_the_fraction_of_the_gap() {
    // (1.1 - 1.0) * 0.0167 * 12 = 0.02004
    assert_eq!(ease(1_000_000, 1_100_000, 16_700, 12), 1_020_040);
    // (4.0 - 0.0) * 0.0167 * 15 = 1.002
    assert_eq!(ease(0, 4_000_000, 16_700, 15), 1_002_000);
}

#[test]
fn ease_moves_downward_too() {
    // 1.1 + (1.0 - 1.1) * 0.2004 = 1.07996
    assert_eq!(ease(1_100_000, 1_000_000, 16_700, 12), 1_079_960);
    assert_eq!(ease(1_099_996, 1_000_000, 16_700, 12), 1_079_957);
}

#[test]
fn ease_cuts_the_step_toward_zero() {
    // gap 7 millionths, fraction 0.5: step 3.5, cut to 3, in either direction
    assert_eq!(ease(0, 7, 50_000, 10), 3);
    assert_eq!(ease(7, 0, 50_000, 10), 4);
    assert_eq!(ease(0, -7, 50_000, 10), -3);
}

#[test]
fn ease_with_no_time_or_no_gap_stays() {
    assert_eq!(ease(123, 456, 0, 12), 123);
    assert_eq!(ease(123, 456, 1_000, 0), 123);
    assert_eq!(ease(456, 456, 16_700, 12), 456);
}

#[test]
fn ease_reaches_the_target_when_the_fraction_is_one() {
    assert_eq!(ease(1_000_000, 1_100_000, 100_000, 10), 1_100_000);
    assert_eq!(ease(1_100_000, 1_000_000, 100_000, 10), 1_000_000);
}

#[test]
fn ease_overshoots_when_the_fraction_exceeds_one() {
    // 1.0 + (1.1 - 1.0) * 1.0 * 12 = 2.2
    assert_eq!(ease(1_000_000, 1_100_000, 1_000_000, 12), 2_200_000);
    // 2.2 + (1.1 - 2.2) * 12 = -11.0
    assert_eq!(ease(2_200_000, 1_100_000, 1_000_000, 12), -11_000_000);
}

#[test]
fn ease_stops_at_the_ends_of_the_range() {
    assert_eq!(ease(0, i64::MAX, u32::MAX, 255), i64::MAX);
    assert_eq!(ease(0, i64::MIN, u32::MAX, 255), i64::MIN);
    assert_eq!(ease(i64::MIN, i64::MAX, u32::MAX, 255), i64::MAX);
    assert_eq!(ease(i64::MAX, i64::MIN, u32::MAX, 255), i64::MIN);
}

#[test]
fn saturate_holds_values_to_64_bits() {
    assert_eq!(saturate(5), 5);
    assert_eq!(saturate(-5), -5);
    assert_eq!(saturate(i64::MAX as i128 + 1), i64::MAX);
    assert_eq!(saturate(i64::MIN as i128 - 1), i64::MIN);
    assert_eq!(saturate(i128::MAX), i64::MAX);
    assert_eq!(saturate(i128::MIN), i64::MIN);
}

#[test]
fn saturate_i32_holds_values_to_32_bits() {
    assert_eq!(saturate_i32(5), 5);
    assert_eq!(saturate_i32(i32::MAX as i128 + 1), i32::MAX);
    assert_eq!(saturate_i32(i32::MIN as i128 - 1), i32::MIN);
}

#[test]
fn to_pixels_cuts_toward_zero() {
    assert_eq!(to_pixels(0), 0);
    assert_eq!(to_pixels(999_999), 0);
    assert_eq!(to_pixels(1_000_000), 1);
    assert_eq!(to_pixels(20_501_000), 20);
    assert_eq!(to_pixels(-999_999), 0);
    assert_eq!(to_pixels(-1_002_000), -1);
    assert_eq!(to_pixels(-7_375_000), -7);
}

#[test]
fn to_pixels_stops_at_the_ends_of_the_range() {
    assert_eq!(to_pixels(i64::MAX), i32::MAX);
    assert_eq!(to_pixels(i64::MIN), i32::MIN);
    assert_eq!(to_pixels(2_147_483_647_999_999), i32::MAX);
    assert_eq!(to_pixels(-2_147_483_648_999_999), i32::MIN);
}
