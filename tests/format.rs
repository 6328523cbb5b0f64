use std::time::Duration;

use soraka::format::{duration, nanos_in_words, push_decimal};

#[test]
fn verify_duration_formatting() {
    assert_eq!(duration(Duration::from_secs(0)), "~0 nanosecond(s)");
    assert_eq!(duration(Duration::from_nanos(1)), "~1 nanosecond(s)");
    assert_eq!(duration(Duration::from_micros(1)), "~1 microsecond(s)");
    assert_eq!(duration(Duration::from_millis(1)), "~1 millisecond(s)");
    assert_eq!(duration(Duration::from_secs(1)), "~1 second(s)");
    assert_eq!(duration(Duration::from_secs(59)), "~59 second(s)");
    assert_eq!(duration(Duration::from_secs(60)), "~1 minute(s)");
    assert_eq!(duration(Duration::from_secs(119)), "~1 minute(s)");
    assert_eq!(duration(Duration::from_secs(120)), "~2 minute(s)");
    assert_eq!(duration(Duration::from_secs(3599)), "~59 minute(s)");
    assert_eq!(duration(Duration::from_secs(3600)), "~1 hour(s)");
    assert_eq!(duration(Duration::from_secs(7199)), "~1 hour(s)");
    assert_eq!(duration(Duration::from_secs(7200)), "~2 hour(s)");
    assert_eq!(duration(Duration::from_secs(86399)), "~23 hour(s)");
    assert_eq!(duration(Duration::from_secs(86400)), "~1 day(s)");
    assert_eq!(duration(Duration::from_secs(172799)), "~1 day(s)");
    assert_eq!(duration(Duration::from_secs(172800)), "~2 day(s)");
    assert_eq!(duration(Duration::from_secs(31535999)), "~364 day(s)");
    assert_eq!(duration(Duration::from_secs(31536000)), "~1 year(s)");
    assert_eq!(duration(Duration::from_secs(63071999)), "~1 year(s)");
    assert_eq!(duration(Duration::from_secs(63072000)), "~2 year(s)");
    assert_eq!(duration(Duration::from_secs(315359999)), "~9 year(s)");
}

#[test]
fn duration_uses_the_spans_nanoseconds() {
    assert_eq!(duration(Duration::new(1, 500_000_000)), "~1 second(s)");
    assert_eq!(duration(Duration::from_nanos(999)), "~999 nanosecond(s)");
    assert_eq!(duration(Duration::from_nanos(1_999_999)), "~1 millisecond(s)");
}

#[test]
fn nanos_in_words_picks_the_largest_unit() {
    assert_eq!(nanos_in_words(0), "~0 nanosecond(s)");
    assert_eq!(nanos_in_words(999), "~999 nanosecond(s)");
    assert_eq!(nanos_in_words(1_000), "~1 microsecond(s)");
    assert_eq!(nanos_in_words(999_999), "~999 microsecond(s)");
    assert_eq!(nanos_in_words(250_000_000), "~250 millisecond(s)");
    assert_eq!(nanos_in_words(u128::MAX), format!("~{} year(s)", u128::MAX / 1_000_000_000 / 60 / 60 / 24 / 365));
}

#[test]
fn push_decimal_appends_base_ten() {
    let mut s = String::from("n=");
    push_decimal(&mut s, 0);
    assert_eq!(s, "n=0");
    let mut s = String::new();
    push_decimal(&mut s, 1234567890);
    assert_eq!(s, "1234567890");
    let mut s = String::new();
    push_decimal(&mut s, u128::MAX);
    assert_eq!(s, u128::MAX.to_string());
    let mut s = String::from("x");
    push_decimal(&mut s, 10);
    assert_eq!(s, "x10");
}
