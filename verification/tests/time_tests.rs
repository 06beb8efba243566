use evertu::time::{Span, Timestamp, MILLIS_PER_HOUR, MILLIS_PER_MINUTE};

#[test]
fn from_secs_has_no_fraction() {
    let t = Timestamp::from_secs(1431648000);
    assert_eq!(t, Timestamp { secs: 1431648000, nanos: 0 });
    assert_eq!(t.timestamp(), 1431648000);
}

#[test]
fn negative_seconds_lie_before_the_epoch() {
    let before = Timestamp::from_secs(-1);
    let epoch = Timestamp::from_secs(0);
    assert!(epoch.is_after(&before));
    assert!(!before.is_after(&epoch));
}

#[test]
fn is_after_is_decided_by_seconds_first() {
    let early = Timestamp { secs: 10, nanos: 999_999_999 };
    let late = Timestamp { secs: 11, nanos: 0 };
    assert!(late.is_after(&early));
    assert!(!early.is_after(&late));
}

#[test]
fn is_after_breaks_ties_by_nanoseconds() {
    let a = Timestamp { secs: 10, nanos: 1 };
    let b = Timestamp { secs: 10, nanos: 2 };
    assert!(b.is_after(&a));
    assert!(!a.is_after(&b));
}

#[test]
fn is_after_is_strict() {
    let a = Timestamp { secs: 10, nanos: 5 };
    assert!(!a.is_after(&a));
}

#[test]
fn millisecond_constants() {
    assert_eq!(MILLIS_PER_MINUTE, 60_000);
    assert_eq!(MILLIS_PER_HOUR, 3_600_000);
}

#[test]
fn minutes_counts_in_milliseconds() {
    assert_eq!(Span::minutes(90).num_milliseconds(), 5_400_000);
    assert_eq!(Span::minutes(0).num_milliseconds(), 0);
    assert_eq!(Span::minutes(-2).num_milliseconds(), -120_000);
}

#[test]
fn milliseconds_keeps_the_count() {
    assert_eq!(Span::milliseconds(1234).num_milliseconds(), 1234);
    assert_eq!(Span::milliseconds(i64::MIN).num_milliseconds(), i64::MIN);
    assert_eq!(Span::milliseconds(i64::MAX), Span { millis: i64::MAX });
}

#[test]
fn ninety_minutes_is_one_hour_thirty() {
    let span = Span::minutes(90);
    assert_eq!(span.num_hours(), 1);
    assert_eq!(span.num_minutes(), 90);
    assert_eq!(span.num_minutes() - 60 * span.num_hours(), 30);
}

#[test]
fn four_hundred_thirty_minutes_is_seven_hours_ten() {
    let span = Span::minutes(430);
    assert_eq!(span.num_hours(), 7);
    assert_eq!(span.num_minutes() - 60 * span.num_hours(), 10);
}

#[test]
fn whole_units_round_toward_zero() {
    assert_eq!(Span::milliseconds(59_999).num_minutes(), 0);
    assert_eq!(Span::milliseconds(60_000).num_minutes(), 1);
    assert_eq!(Span::milliseconds(3_599_999).num_hours(), 0);
    assert_eq!(Span::milliseconds(3_600_000).num_hours(), 1);
}

#[test]
fn negative_spans_round_toward_zero() {
    assert_eq!(Span::milliseconds(-59_999).num_minutes(), 0);
    assert_eq!(Span::milliseconds(-60_000).num_minutes(), -1);
    assert_eq!(Span::milliseconds(-5_400_001).num_minutes(), -90);
    assert_eq!(Span::milliseconds(-5_400_001).num_hours(), -1);
    assert_eq!(Span::milliseconds(-3_599_999).num_hours(), 0);
}

#[test]
fn extreme_spans_do_not_overflow() {
    assert_eq!(Span::milliseconds(i64::MAX).num_hours(), i64::MAX / 3_600_000);
    assert_eq!(Span::milliseconds(i64::MIN).num_hours(), i64::MIN / 3_600_000);
    assert_eq!(Span::milliseconds(i64::MIN).num_minutes(), -153_722_867_280_912);
}
