use measure_time::{format_duration, human_readable_time, render_duration};
use std::time::Duration;

const ONE_MINUTE_IN_SECONDS: u64 = 60;
const ONE_HOURS_IN_SECONDS: u64 = ONE_MINUTE_IN_SECONDS * 60;
const ONE_DAY_IN_SECONDS: u64 = ONE_HOURS_IN_SECONDS * 24;

#[test]
fn human_readable_time_test() {
    assert_eq!(
        human_readable_time(Duration::new(5, 900_000_000)),
        "5s 900ms"
    );
    assert_eq!(
        human_readable_time(Duration::new(ONE_HOURS_IN_SECONDS + 1, 900_123_000)),
        "1h 1s"
    );
    assert_eq!(
        human_readable_time(Duration::new(ONE_HOURS_IN_SECONDS - 1, 900_123_000)),
        "59m 59s"
    );
    assert_eq!(
        human_readable_time(Duration::new(3 * ONE_HOURS_IN_SECONDS + 1, 900_123_000)),
        "3h"
    );
    assert_eq!(
        human_readable_time(Duration::new(5, 900_123_000)),
        "5s 900ms"
    );
    assert_eq!(
        human_readable_time(Duration::new(
            ONE_HOURS_IN_SECONDS * 10 + ONE_MINUTE_IN_SECONDS * 10 + 10,
            123
        )),
        "10h 10m"
    );
    assert_eq!(
        human_readable_time(Duration::new(
            ONE_HOURS_IN_SECONDS * 10 + ONE_MINUTE_IN_SECONDS,
            123
        )),
        "10h 1m"
    );
    assert_eq!(
        human_readable_time(Duration::new(ONE_HOURS_IN_SECONDS * 3 + 10, 123)),
        "3h"
    );
    assert_eq!(human_readable_time(Duration::new(0, 900_000)), "0.9ms");
    assert_eq!(human_readable_time(Duration::new(0, 950_000)), "0.95ms");
    assert_eq!(human_readable_time(Duration::new(0, 1950_000)), "1.95ms");
    assert_eq!(human_readable_time(Duration::new(0, 1950_000)), "1.95ms");
    assert_eq!(human_readable_time(Duration::new(0, 1957_123)), "1.95ms");
}

#[test]
fn zero_duration_is_zero_seconds() {
    assert_eq!(human_readable_time(Duration::new(0, 0)), "0s");
    assert_eq!(render_duration(0, 0), "0s");
}

#[test]
fn millis_stop_after_thirty_seconds() {
    assert_eq!(human_readable_time(Duration::new(30, 1)), "30s");
    assert_eq!(human_readable_time(Duration::new(30, 0)), "30s 0ms");
    assert_eq!(human_readable_time(Duration::new(29, 999_999_999)), "29s 999ms");
}

#[test]
fn sub_second_millis_keep_two_decimals() {
    assert_eq!(human_readable_time(Duration::from_micros(900)), "0.9ms");
    assert_eq!(human_readable_time(Duration::new(0, 1_950_000)), "1.95ms");
    assert_eq!(human_readable_time(Duration::new(0, 1_050_000)), "1.05ms");
    assert_eq!(human_readable_time(Duration::new(0, 250_000_000)), "250ms");
    assert_eq!(human_readable_time(Duration::new(0, 999_999_999)), "999.99ms");
    assert_eq!(human_readable_time(Duration::new(0, 123)), "0ms");
}

#[test]
fn whole_millis_between_one_and_thirty_seconds() {
    assert_eq!(human_readable_time(Duration::new(1, 0)), "1s 0ms");
    assert_eq!(human_readable_time(Duration::new(1, 500_999_999)), "1s 500ms");
    assert_eq!(human_readable_time(Duration::new(12, 7_000_000)), "12s 7ms");
}

#[test]
fn one_hour_boundary() {
    assert_eq!(human_readable_time(Duration::new(3599, 900_123_000)), "59m 59s");
    assert_eq!(human_readable_time(Duration::new(3601, 900_123_000)), "1h 1s");
    assert_eq!(human_readable_time(Duration::new(3 * ONE_HOURS_IN_SECONDS + 1, 0)), "3h");
    assert_eq!(human_readable_time(Duration::new(3 * ONE_HOURS_IN_SECONDS, 0)), "3h");
    assert_eq!(human_readable_time(Duration::new(3 * ONE_HOURS_IN_SECONDS - 1, 0)), "2h 59m 59s");
}

#[test]
fn seconds_hidden_past_three_hours() {
    assert_eq!(human_readable_time(Duration::new(36_610, 0)), "10h 10m");
}

#[test]
fn days_months_and_years() {
    assert_eq!(human_readable_time(Duration::new(ONE_DAY_IN_SECONDS, 0)), "1day");
    assert_eq!(
        human_readable_time(Duration::new(2 * ONE_DAY_IN_SECONDS + 3 * ONE_HOURS_IN_SECONDS + 75, 0)),
        "2days 3h"
    );
    assert_eq!(
        human_readable_time(Duration::new(ONE_DAY_IN_SECONDS + 60, 0)),
        "1day"
    );
    assert_eq!(
        human_readable_time(Duration::new(31 * ONE_DAY_IN_SECONDS + 5 * ONE_HOURS_IN_SECONDS, 0)),
        "1month"
    );
    assert_eq!(
        human_readable_time(Duration::new(29 * ONE_DAY_IN_SECONDS + 5 * ONE_HOURS_IN_SECONDS, 0)),
        "29days 5h"
    );
    assert_eq!(human_readable_time(Duration::new(2_630_016, 0)), "1month");
    assert_eq!(human_readable_time(Duration::new(2 * 2_630_016 + 2 * ONE_DAY_IN_SECONDS, 0)), "2months 2days");
    assert_eq!(human_readable_time(Duration::new(31_557_600, 0)), "1year");
    assert_eq!(human_readable_time(Duration::new(3 * 31_557_600 + 2_630_016, 0)), "3years 1month");
}

#[test]
fn formatted_duration_renders_its_duration() {
    let f = format_duration(Duration::new(5, 900_000_000));
    assert_eq!(f.to_string(), "5s 900ms");
    assert_eq!(f.clone().to_string(), "5s 900ms");
    assert_eq!(render_duration(3661, 0), "1h 1m 1s");
}
