//! The metric rescaler and the unit tables.

use metric_time::{Converter, TimeConversions, TimeKind};

#[test]
fn can_get_rate_from_converter() {
    let custom_conv = Converter::new(1, 2);
    assert_eq!(custom_conv.rate(), (1, 2));
    let metric_conv = Converter::metric();
    assert_eq!(metric_conv.rate(), (108, 125));
}

#[test]
fn can_convert_standard_ns_to_metric() {
    let metric_conv = Converter::metric();
    let std_ns: u64 = 1_000;
    let metric_ns = metric_conv.to_dest_from(std_ns);
    assert_eq!(metric_ns, 1_157);
}

#[test]
fn can_convert_metric_ns_back_to_standard() {
    let metric_conv = Converter::metric();
    let metric_ns: u64 = 1_157;
    let std_ns = metric_conv.to_origin_from(metric_ns);
    assert_eq!(std_ns, 1_000);
}

#[test]
fn converts_to_metric_and_back_to_standard_scenario_01() {
    let metric_conv = Converter::metric();
    let initial_std: u64 = 651;
    let metric_dest = metric_conv.to_dest_from(initial_std);
    assert_eq!(metric_dest, 753);
    let final_std = metric_conv.to_origin_from(metric_dest);
    assert_eq!(final_std, initial_std);
}

#[test]
fn converts_to_metric_and_back_to_standard_scenario_02() {
    let metric_conv = Converter::metric();
    let initial_std: u64 = 123_456_789;
    let metric_dest = metric_conv.to_dest_from(initial_std);
    assert_eq!(metric_dest, 142_889_802);
    let final_std = metric_conv.to_origin_from(metric_dest);
    assert_eq!(final_std, initial_std);
}

#[test]
fn converts_to_standard_and_back_to_metric_scenario_01() {
    let metric_conv = Converter::metric();
    let metric_dest: u64 = 651;
    let std_origin = metric_conv.to_origin_from(metric_dest);
    assert_eq!(std_origin, 563);
    let final_metric = metric_conv.to_dest_from(std_origin);
    assert_eq!(final_metric, metric_dest);
}

#[test]
fn converts_to_standard_and_back_to_metric_scenario_02() {
    let metric_conv = Converter::metric();
    let metric_dest: u64 = 123_456_789;
    let std_origin = metric_conv.to_origin_from(metric_dest);
    assert_eq!(std_origin, 106_666_666);
    let final_metric = metric_conv.to_dest_from(std_origin);
    assert_eq!(final_metric, metric_dest);
}

#[test]
fn standard_conversions() {
    let c = TimeConversions::standard();
    assert_eq!(c.hours_per_day(), 24);
    assert_eq!(c.min_per_hour(), 60);
    assert_eq!(c.secs_per_min(), 60);
    assert_eq!(c.mins_per_day(), 1_440);
    assert_eq!(c.secs_per_hour(), 3_600);
    assert_eq!(c.secs_per_day(), 86_400);
    assert_eq!(c.ns_per_ms(), 1_000_000);
    assert_eq!(c.ns_per_sec(), 1_000_000_000);
    assert_eq!(c.ns_per_min(), 60_000_000_000);
    assert_eq!(c.ns_per_hour(), 3_600_000_000_000);
    assert_eq!(c.ns_per_day(), 86_400_000_000_000);
}

#[test]
fn metric_conversions() {
    let c = TimeConversions::metric();
    assert_eq!(c.hours_per_day(), 10);
    assert_eq!(c.min_per_hour(), 100);
    assert_eq!(c.secs_per_min(), 100);
    assert_eq!(c.mins_per_day(), 1_000);
    assert_eq!(c.secs_per_hour(), 10_000);
    assert_eq!(c.secs_per_day(), 100_000);
    assert_eq!(c.ns_per_ms(), 1_000_000);
    assert_eq!(c.ns_per_sec(), 1_000_000_000);
    assert_eq!(c.ns_per_min(), 100_000_000_000);
    assert_eq!(c.ns_per_hour(), 10_000_000_000_000);
    assert_eq!(c.ns_per_day(), 100_000_000_000_000);
}

#[test]
fn custom_conversions_table() {
    let custom = TimeConversions::new(12, 100, 100);
    assert_eq!(custom.hours_per_day(), 12);
    assert_eq!(custom.min_per_hour(), 100);
    assert_eq!(custom.secs_per_min(), 100);
    assert_eq!(custom.ns_per_day(), 120_000_000_000_000);
}

#[test]
fn conversions_table_from_kind() {
    let metric = TimeConversions::from(&TimeKind::Base10);
    assert_eq!(metric.hours_per_day(), 10);
    let standard = TimeConversions::from(&TimeKind::Base24);
    assert_eq!(standard.hours_per_day(), 24);
}
