//! Percentage-to-quota conversion and limit rendering.

use nox_throttle::quota::{quota_us_for, setting_for, PERCENT_MAX, PERIOD_MS, PERIOD_US};
use nox_throttle::report::limit_text;

#[test]
fn period_is_ten_milliseconds() {
    assert_eq!(PERIOD_MS, 10);
    assert_eq!(PERIOD_US, 10_000);
}

#[test]
fn fifteen_percent_is_1500_microseconds() {
    let s = setting_for(15);
    assert_eq!(s.period_us, 10_000);
    assert_eq!(s.quota_us, 1_500);
    assert_eq!(limit_text(s.quota_us as i64, s.period_us), "15%");
}

#[test]
fn zero_percent_is_explicit_zero_quota() {
    assert_eq!(quota_us_for(0), 0);
    // by convention a non-positive quota reads back as unrestricted
    assert_eq!(limit_text(0, 10_000), "no limit");
}

#[test]
fn negative_quota_reads_as_no_limit() {
    assert_eq!(limit_text(-1, 10_000), "no limit");
}

#[test]
fn percentages_above_one_hundred_are_accepted() {
    assert_eq!(quota_us_for(250), 25_000);
    assert_eq!(limit_text(25_000, 10_000), "250%");
}

#[test]
fn one_percent_is_one_hundred_microseconds() {
    assert_eq!(quota_us_for(1), 100);
    assert_eq!(limit_text(100, 10_000), "1%");
}

#[test]
fn derived_percent_truncates_to_whole_percents() {
    assert_eq!(limit_text(1_550, 10_000), "15%");
}

#[test]
fn extreme_readback_values_render() {
    assert_eq!(limit_text(i64::MAX, 1), "922337203685477580700%");
}

#[test]
fn largest_accepted_percent_converts() {
    let s = setting_for(PERCENT_MAX);
    assert_eq!(s.quota_us, 100 * PERCENT_MAX);
}

#[test]
fn second_write_fully_overwrites_first() {
    // writes are destructive: after requesting 0 and then 50, the pair
    // attached to the group is exactly the one for 50
    let _first = setting_for(0);
    let second = setting_for(50);
    assert_eq!(second.quota_us, 5_000);
    assert_eq!(second.period_us, 10_000);
    assert_eq!(limit_text(second.quota_us as i64, second.period_us), "50%");
}
