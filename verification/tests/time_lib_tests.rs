//! Bounds validation and clock-hand rotations.

use metric_time::{Period, TimeBounds, TimeComponents, TimeKind, TimeRangeError,
    TimeRotationComponents};

const NS_PER_SEC: u32 = 1_000_000_000;

fn check_bounds(kind: TimeKind, components: TimeComponents, expectation: Option<TimeRangeError>) {
    let bounds = TimeBounds::new(kind);
    let result = bounds.check(components);
    if let Some(expected_err) = expectation {
        assert_eq!(result.is_err(), true);
        assert_eq!(result.unwrap_err(), expected_err);
    } else {
        assert_eq!(result.is_ok(), true);
        assert_eq!(result.unwrap(), components);
    }
}

#[test]
fn it_can_validate_correct_metric_bounds() {
    check_bounds(TimeKind::Base10, TimeComponents::new(0, 0, 0, 0), None);
    check_bounds(
        TimeKind::Base10,
        TimeComponents::new(9, 99, 99, NS_PER_SEC - 1),
        None,
    );
    check_bounds(
        TimeKind::Base10,
        TimeComponents::new(10, 0, 0, 0),
        Some(TimeRangeError::HoursHigh),
    );
    check_bounds(
        TimeKind::Base10,
        TimeComponents::new(0, 100, 0, 0),
        Some(TimeRangeError::MintuesHigh),
    );
    check_bounds(
        TimeKind::Base10,
        TimeComponents::new(0, 0, 100, 0),
        Some(TimeRangeError::SecondsHigh),
    );
    check_bounds(
        TimeKind::Base10,
        TimeComponents::new(0, 0, 0, NS_PER_SEC),
        Some(TimeRangeError::NanosecondsHigh),
    );
}

#[test]
fn it_can_validate_correct_standard_bounds_12_hour() {
    let kind = TimeKind::Base12(Period::AM);
    check_bounds(kind, TimeComponents::new(1, 0, 0, 0), None);
    check_bounds(kind, TimeComponents::new(11, 59, 59, NS_PER_SEC - 1), None);
    check_bounds(
        kind,
        TimeComponents::new(13, 0, 0, 0),
        Some(TimeRangeError::HoursHigh),
    );
    check_bounds(
        kind,
        TimeComponents::new(0, 0, 0, 0),
        Some(TimeRangeError::HoursLow),
    );
    check_bounds(
        kind,
        TimeComponents::new(1, 60, 0, 0),
        Some(TimeRangeError::MintuesHigh),
    );
    check_bounds(
        kind,
        TimeComponents::new(1, 0, 60, 0),
        Some(TimeRangeError::SecondsHigh),
    );
    check_bounds(
        kind,
        TimeComponents::new(1, 0, 0, NS_PER_SEC),
        Some(TimeRangeError::NanosecondsHigh),
    );
}

#[test]
fn it_can_validate_correct_standard_bounds_24_hour() {
    let kind = TimeKind::Base24;
    check_bounds(kind, TimeComponents::new(0, 0, 0, 0), None);
    check_bounds(kind, TimeComponents::new(23, 59, 59, NS_PER_SEC - 1), None);
    check_bounds(
        kind,
        TimeComponents::new(24, 0, 0, 0),
        Some(TimeRangeError::HoursHigh),
    );
    check_bounds(
        kind,
        TimeComponents::new(0, 60, 0, 0),
        Some(TimeRangeError::MintuesHigh),
    );
    check_bounds(
        kind,
        TimeComponents::new(0, 0, 60, 0),
        Some(TimeRangeError::SecondsHigh),
    );
    check_bounds(
        kind,
        TimeComponents::new(0, 0, 0, NS_PER_SEC),
        Some(TimeRangeError::NanosecondsHigh),
    );
}

fn round_float(num: f64) -> f64 {
    (num * 100.00).round() / 100.00
}

/// Angles are stored in fixed point; one degree is this many steps.
const DEGREE_STEPS: f64 = 10_000_000_000_000_000.0;

#[test]
fn it_calculates_clock_hand_rotations_in_metric() {
    let components = TimeComponents::new(2, 45, 23, 234_000_000);
    let rotations = TimeRotationComponents::new(components, TimeKind::Base10);
    assert_eq!(round_float(rotations.hours() as f64 / DEGREE_STEPS), 73.63);
    assert_eq!(round_float(rotations.minutes() as f64 / DEGREE_STEPS), 162.84);
    assert_eq!(round_float(rotations.seconds() as f64 / DEGREE_STEPS), 83.64);
    assert_eq!(round_float(rotations.nanoseconds() as f64 / DEGREE_STEPS), 84.24);
}

#[test]
fn it_keeps_range_starts_and_ends_per_kind() {
    let metric = TimeBounds::new(TimeKind::Base10);
    assert_eq!((metric.hours.start, metric.hours.end), (0, 10));
    assert_eq!((metric.minutes.start, metric.minutes.end), (0, 100));
    assert_eq!((metric.seconds.start, metric.seconds.end), (0, 100));
    assert_eq!(metric.nanoseconds.end, NS_PER_SEC);
    let twelve = TimeBounds::new(TimeKind::Base12(Period::PM));
    assert_eq!((twelve.hours.start, twelve.hours.end), (1, 13));
    assert_eq!((twelve.minutes.start, twelve.minutes.end), (0, 60));
    let day = TimeBounds::new(TimeKind::Base24);
    assert_eq!((day.hours.start, day.hours.end), (0, 24));
    assert_eq!((day.seconds.start, day.seconds.end), (0, 60));
}

#[test]
fn it_rotates_whole_turns_at_dial_ends() {
    // Twelve o'clock on the 12-hour dial is a full turn of the hours hand.
    let rotations = TimeRotationComponents::new(
        TimeComponents::new(12, 0, 0, 0),
        TimeKind::Base12(Period::AM),
    );
    assert_eq!(rotations.hours() as f64 / DEGREE_STEPS, 360.0);
    assert_eq!(rotations.minutes(), 0);
    // Half past three on the 24-hour dial: the minutes hand points straight
    // down, and the hours hand sits just past the three-hour mark.
    let rotations = TimeRotationComponents::new(TimeComponents::new(3, 30, 0, 0), TimeKind::Base24);
    assert_eq!(rotations.minutes() as f64 / DEGREE_STEPS, 180.0);
    assert_eq!(round_float(rotations.hours() as f64 / DEGREE_STEPS), 46.8);
}
