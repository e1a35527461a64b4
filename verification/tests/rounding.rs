use session_monitor::rounding::{elapsed_minutes, final_minutes};

#[test]
fn ninety_seconds_round_up_to_two_minutes() {
    assert_eq!(final_minutes(90), 2);
}

#[test]
fn eighty_nine_seconds_round_down_to_one_minute() {
    assert_eq!(final_minutes(89), 1);
}

#[test]
fn twenty_nine_seconds_round_down_to_zero() {
    assert_eq!(final_minutes(29), 0);
}

#[test]
fn exactly_half_a_minute_rounds_up() {
    assert_eq!(final_minutes(30), 1);
    assert_eq!(final_minutes(60), 1);
    assert_eq!(final_minutes(0), 0);
    assert_eq!(final_minutes(59), 1);
    assert_eq!(final_minutes(149), 2);
    assert_eq!(final_minutes(150), 3);
}

#[test]
fn final_minutes_of_the_largest_count_does_not_overflow() {
    assert_eq!(final_minutes(u64::MAX), u64::MAX / 60);
}

#[test]
fn elapsed_minutes_are_truncated() {
    assert_eq!(elapsed_minutes(0), 0);
    assert_eq!(elapsed_minutes(30), 0);
    assert_eq!(elapsed_minutes(59), 0);
    assert_eq!(elapsed_minutes(60), 1);
    assert_eq!(elapsed_minutes(90), 1);
    assert_eq!(elapsed_minutes(120), 2);
}
