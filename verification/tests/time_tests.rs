//! The Time value type: construction, conversion, ordering and text.

use metric_time::{
    Period, Time, TimeBounds, TimeComponents, TimeConversionTrait, TimeKind, TimeRangeError,
};

#[test]
fn it_creates_a_new_time_and_converts_to_metric() {
    let time_components = TimeComponents {
        hours: 9,
        minutes: 23,
        seconds: 56,
        nanoseconds: 9_234_234,
    };
    let expected_time_components = TimeComponents {
        hours: 3,
        minutes: 91,
        seconds: 62,
        nanoseconds: 47_724_807,
    };
    let base_time_result = Time::new(time_components, TimeKind::Base24);
    assert!(base_time_result.is_ok());
    let base_time = base_time_result.unwrap();
    assert_eq!(base_time.components(), time_components);
    assert_eq!(base_time.kind(), TimeKind::Base24);
    assert_eq!(base_time.hours(), time_components.hours);
    assert_eq!(base_time.minutes(), time_components.minutes);
    assert_eq!(base_time.seconds(), time_components.seconds);
    assert_eq!(base_time.nanoseconds(), time_components.nanoseconds);
    assert_eq!(base_time.to_text(), "9:23:56.9234234");
    let metric_time = base_time.to(TimeKind::Base10);
    assert_eq!(metric_time.components(), expected_time_components);
    assert_eq!(metric_time.kind(), TimeKind::Base10);
    assert_eq!(metric_time.hours(), expected_time_components.hours);
    assert_eq!(metric_time.minutes(), expected_time_components.minutes);
    assert_eq!(metric_time.seconds(), expected_time_components.seconds);
    assert_eq!(metric_time.nanoseconds(), expected_time_components.nanoseconds);
    assert_eq!(metric_time.to_text(), "Metric: 3:91:62.47724807");
}

#[test]
fn it_allows_comparison_and_equality_checks() {
    let time_01 = Time::new(
        TimeComponents {
            hours: 9,
            minutes: 23,
            seconds: 56,
            nanoseconds: 9_234_234,
        },
        TimeKind::Base24,
    )
    .unwrap();
    let time_02 = Time::new(
        TimeComponents {
            hours: 9,
            minutes: 23,
            seconds: 56,
            nanoseconds: 9_234_234,
        },
        TimeKind::Base24,
    )
    .unwrap();
    let time_03 = Time::new(
        TimeComponents {
            hours: 9,
            minutes: 45,
            seconds: 21,
            nanoseconds: 2_232_342,
        },
        TimeKind::Base24,
    )
    .unwrap();
    assert!(time_01 == time_02);
    assert!(time_01 <= time_02);
    assert!(time_01 >= time_02);
    assert!(time_01 < time_03);
    assert!(time_03 > time_02);
}

#[test]
fn it_calculates_clock_hand_rotations() {
    let metric_time = Time::new(TimeComponents::new(2, 45, 23, 234_000_000), TimeKind::Base10)
        .unwrap();
    let rotations = metric_time.rotations();
    fn round_float(num: f64) -> f64 {
        (num * 100.00).round() / 100.00
    }
    const DEGREE_STEPS: f64 = 10_000_000_000_000_000.0;
    assert_eq!(round_float(rotations.hours() as f64 / DEGREE_STEPS), 73.63);
    assert_eq!(round_float(rotations.minutes() as f64 / DEGREE_STEPS), 162.84);
    assert_eq!(round_float(rotations.seconds() as f64 / DEGREE_STEPS), 83.64);
    assert_eq!(round_float(rotations.nanoseconds() as f64 / DEGREE_STEPS), 84.24);
}

#[test]
fn it_rejects_out_of_range_components() {
    assert_eq!(
        Time::new(TimeComponents::new(24, 0, 0, 0), TimeKind::Base24).unwrap_err(),
        TimeRangeError::HoursHigh,
    );
    assert_eq!(
        Time::base12(TimeComponents::new(0, 0, 0, 0), Period::AM).unwrap_err(),
        TimeRangeError::HoursLow,
    );
    assert_eq!(
        Time::base10(TimeComponents::new(9, 100, 0, 0)).unwrap_err(),
        TimeRangeError::MintuesHigh,
    );
    assert_eq!(
        Time::base24(TimeComponents::new(0, 0, 60, 0)).unwrap_err(),
        TimeRangeError::SecondsHigh,
    );
    assert_eq!(
        Time::base24(TimeComponents::new(0, 0, 0, 1_000_000_000)).unwrap_err(),
        TimeRangeError::NanosecondsHigh,
    );
}

#[test]
fn it_converts_between_all_bases() {
    let afternoon = Time::base24(TimeComponents::new(14, 30, 0, 0)).unwrap();
    let twelve_hour = afternoon.to(TimeKind::Base12(Period::AM));
    assert_eq!(twelve_hour.kind(), TimeKind::Base12(Period::PM));
    assert_eq!(twelve_hour.components(), TimeComponents::new(2, 30, 0, 0));
    let back = twelve_hour.to(TimeKind::Base24);
    assert_eq!(back.components(), TimeComponents::new(14, 30, 0, 0));
    let metric = twelve_hour.to(TimeKind::Base10);
    assert_eq!(metric.kind(), TimeKind::Base10);
    assert_eq!(
        metric.components(),
        metric_time::base24_to_base10(&TimeComponents::new(14, 30, 0, 0)),
    );
    let same = metric.to(TimeKind::Base10);
    assert_eq!(same, metric);
    let twelve_from_metric = Time::base10(TimeComponents::new(6, 4, 66, 666_666_667))
        .unwrap()
        .to(TimeKind::Base12(Period::AM));
    assert_eq!(twelve_from_metric.kind(), TimeKind::Base12(Period::PM));
}

#[test]
fn it_converts_the_last_metric_instant_to_twelve_hour_noon() {
    // The final metric nanosecond of the day rounds up to a full standard
    // day; read on the 12-hour dial, hour 24 is 12 PM.
    let last = Time::base10(TimeComponents::new(9, 99, 99, 999_999_999)).unwrap();
    let twelve = last.to(TimeKind::Base12(Period::AM));
    assert_eq!(twelve.kind(), TimeKind::Base12(Period::PM));
    assert_eq!(twelve.components(), TimeComponents::new(12, 0, 0, 0));
}

#[test]
fn it_reads_a_valid_time_from_the_host_clock() {
    let now = Time::now();
    assert_eq!(now.kind(), TimeKind::Base24);
    let bounds = TimeBounds::new(TimeKind::Base24);
    assert!(bounds.check(now.components()).is_ok());
}

#[test]
fn it_renders_twelve_hour_text_with_period() {
    let morning = Time::base12(TimeComponents::new(7, 5, 9, 42), Period::AM).unwrap();
    assert_eq!(morning.to_text(), "7:05:09.42 AM");
    let evening = Time::base12(TimeComponents::new(11, 59, 58, 0), Period::PM).unwrap();
    assert_eq!(evening.to_text(), "11:59:58.0 PM");
}

#[test]
fn it_orders_same_kind_times_lexicographically() {
    let make = |h: u8, m: u8, s: u8, ns: u32| {
        Time::base24(TimeComponents::new(h, m, s, ns)).unwrap()
    };
    assert!(make(1, 59, 59, 999_999_999) < make(2, 0, 0, 0));
    assert!(make(2, 1, 0, 0) < make(2, 2, 0, 0));
    assert!(make(2, 2, 3, 0) < make(2, 2, 4, 0));
    assert!(make(2, 2, 4, 5) < make(2, 2, 4, 6));
    assert!(!(make(2, 2, 4, 5) < make(2, 2, 4, 5)));
    assert!(make(3, 0, 0, 0) > make(2, 59, 59, 999_999_999));
}
