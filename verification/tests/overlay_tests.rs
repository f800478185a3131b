use platformer_core::overlay::{format_fps, round_millifps, u64_to_string};

#[test]
fn decimal_of_zero() {
    assert_eq!(u64_to_string(0).as_str(), "0");
}

#[test]
fn decimal_of_single_digit() {
    assert_eq!(u64_to_string(7).as_str(), "7");
}

#[test]
fn decimal_of_round_number() {
    assert_eq!(u64_to_string(60).as_str(), "60");
}

#[test]
fn decimal_of_many_digits() {
    assert_eq!(u64_to_string(1234567890).as_str(), "1234567890");
}

#[test]
fn decimal_with_inner_zeros() {
    assert_eq!(u64_to_string(100).as_str(), "100");
    assert_eq!(u64_to_string(1005).as_str(), "1005");
}

#[test]
fn decimal_of_max() {
    assert_eq!(u64_to_string(u64::MAX).as_str(), "18446744073709551615");
}

#[test]
fn rounding_is_nearest_half_up() {
    assert_eq!(round_millifps(59700), 60);
    assert_eq!(round_millifps(59499), 59);
    assert_eq!(round_millifps(59500), 60);
    assert_eq!(round_millifps(0), 0);
    assert_eq!(round_millifps(499), 0);
    assert_eq!(round_millifps(500), 1);
    assert_eq!(round_millifps(60000), 60);
}

#[test]
fn fps_line_for_average_59_7() {
    // An average of 59.7 frames per second reads as a round 60.
    let r = round_millifps(59700);
    assert_eq!(format_fps(r).as_str(), "FPS: 60");
}

#[test]
fn fps_line_for_zero() {
    assert_eq!(format_fps(0).as_str(), "FPS: 0");
}

#[test]
fn fps_line_for_large_rate() {
    assert_eq!(format_fps(144).as_str(), "FPS: 144");
}
