use intervalle::Instant;
use intervalle::IntervalleError;
use intervalle::TimeSpec;

fn instant(year: u16, month: u8, day: u8, hour: u8, minute: u8, second: u8) -> Instant {
    Instant::new(year, month, day, hour, minute, second).unwrap()
}

fn anchor() -> Instant {
    instant(2023, 11, 11, 12, 20, 45)
}

fn failure(text: &str) -> (String, String, usize) {
    match TimeSpec::parse_with_anchor(text, anchor()) {
        Err(IntervalleError::ParseError(info, input, offset)) => (info, input, offset),
        Ok(v) => panic!("expected a failure for {:?}, got {:?}", text, v),
    }
}

#[test]
fn month_out_of_range_at_month_field() {
    let (info, input, offset) = failure("2024-13-01");
    assert_eq!(info, "month out of range");
    assert_eq!(input, "2024-13-01");
    assert_eq!(offset, 5);
}

#[test]
fn day_out_of_range_at_day_field() {
    let (info, _, offset) = failure("2024-02-30");
    assert_eq!(info, "day out of range for this month");
    assert_eq!(offset, 8);
}

#[test]
fn leap_year_rules() {
    let ok = TimeSpec::parse_with_anchor("2024-02-29", anchor()).unwrap();
    assert_eq!(ok, TimeSpec::Point(instant(2024, 2, 29, 0, 0, 0)));
    let ok = TimeSpec::parse_with_anchor("2000-02-29", anchor()).unwrap();
    assert_eq!(ok, TimeSpec::Point(instant(2000, 2, 29, 0, 0, 0)));
    let (info, _, offset) = failure("2023-02-29");
    assert_eq!(info, "day out of range for this month");
    assert_eq!(offset, 8);
    let (info, _, offset) = failure("1900-02-29");
    assert_eq!(info, "day out of range for this month");
    assert_eq!(offset, 8);
}

#[test]
fn hour_minute_second_ranges() {
    let (info, _, offset) = failure("24:00");
    assert_eq!(info, "hour out of range");
    assert_eq!(offset, 0);
    let (info, _, offset) = failure("12:60");
    assert_eq!(info, "minute out of range");
    assert_eq!(offset, 3);
    let (info, _, offset) = failure("12:00:60");
    assert_eq!(info, "second out of range");
    assert_eq!(offset, 6);
}

#[test]
fn digit_count_in_committed_date() {
    let (info, _, offset) = failure("2024-8-08");
    assert_eq!(info, "expected 2 digits");
    assert_eq!(offset, 5);
    let (info, _, offset) = failure("2024-08-8");
    assert_eq!(info, "expected 2 digits");
    assert_eq!(offset, 8);
}

#[test]
fn missing_second_dash() {
    let (info, _, offset) = failure("2024-08");
    assert_eq!(info, "expected '-'");
    assert_eq!(offset, 7);
}

#[test]
fn committed_date_time_needs_a_time() {
    let (info, _, offset) = failure("2024-08-08 1410");
    assert_eq!(info, "expected 2 digits");
    assert_eq!(offset, 11);
    let (info, _, offset) = failure("2024-08-08 14.10");
    assert_eq!(info, "expected ':'");
    assert_eq!(offset, 13);
}

#[test]
fn trailing_input_is_rejected() {
    let (info, _, offset) = failure("todayx");
    assert_eq!(info, "unexpected trailing input");
    assert_eq!(offset, 5);
    let (info, _, offset) = failure("15:28pm");
    assert_eq!(info, "unexpected trailing input");
    assert_eq!(offset, 5);
    let (info, _, offset) = failure("2024-08-08 14:10:11Z");
    assert_eq!(info, "unexpected trailing input");
    assert_eq!(offset, 19);
    let (info, _, offset) = failure("2024-08-08T14:10");
    assert_eq!(info, "unexpected trailing input");
    assert_eq!(offset, 10);
}

#[test]
fn no_alternative_at_decision_point() {
    let (info, _, offset) = failure("noon");
    assert_eq!(info, "expected a date, a time or a keyword");
    assert_eq!(offset, 0);
    let (info, _, offset) = failure("");
    assert_eq!(offset, 0);
    assert_eq!(info, "expected a date, a time or a keyword");
    let (info, _, offset) = failure("+");
    assert_eq!(info, "expected a date, a time or a keyword");
    assert_eq!(offset, 1);
}

#[test]
fn modifier_offsets_shift_failures() {
    let (info, _, offset) = failure("-2024-13-01");
    assert_eq!(info, "month out of range");
    assert_eq!(offset, 6);
}

#[test]
fn modifier_applies_to_every_production() {
    let a = anchor();
    let parsed = TimeSpec::parse_with_anchor("+today", a).unwrap();
    assert_eq!(parsed, TimeSpec::After(instant(2023, 11, 11, 0, 0, 0)));
    let parsed = TimeSpec::parse_with_anchor("-yesterday", a).unwrap();
    assert_eq!(parsed, TimeSpec::Before(instant(2023, 11, 10, 0, 0, 0)));
    let parsed = TimeSpec::parse_with_anchor("+2024-08-08", a).unwrap();
    assert_eq!(parsed, TimeSpec::After(instant(2024, 8, 8, 0, 0, 0)));
    let parsed = TimeSpec::parse_with_anchor("-2024-08-08 14:10:11", a).unwrap();
    assert_eq!(parsed, TimeSpec::Before(instant(2024, 8, 8, 14, 10, 11)));
}

#[test]
fn leading_dash_is_a_modifier_not_a_negative_year() {
    let parsed = TimeSpec::parse_with_anchor("-2024-08-08", anchor()).unwrap();
    assert_eq!(parsed, TimeSpec::Before(instant(2024, 8, 8, 0, 0, 0)));
}

#[test]
fn relative_days_cross_month_and_year_boundaries() {
    let a = instant(2024, 3, 1, 6, 30, 0);
    let parsed = TimeSpec::parse_with_anchor("yesterday", a).unwrap();
    assert_eq!(parsed, TimeSpec::Point(instant(2024, 2, 29, 0, 0, 0)));

    let a = instant(2024, 1, 1, 6, 30, 0);
    let parsed = TimeSpec::parse_with_anchor("yesterday", a).unwrap();
    assert_eq!(parsed, TimeSpec::Point(instant(2023, 12, 31, 0, 0, 0)));

    let a = instant(2023, 12, 31, 6, 30, 0);
    let parsed = TimeSpec::parse_with_anchor("tomorrow", a).unwrap();
    assert_eq!(parsed, TimeSpec::Point(instant(2024, 1, 1, 0, 0, 0)));

    let a = instant(2023, 11, 30, 6, 30, 0);
    let parsed = TimeSpec::parse_with_anchor("tomorrow", a).unwrap();
    assert_eq!(parsed, TimeSpec::Point(instant(2023, 12, 1, 0, 0, 0)));
}

#[test]
fn relative_days_at_the_supported_range_edges() {
    let a = instant(0, 1, 1, 10, 0, 0);
    let (info, _, offset) = match TimeSpec::parse_with_anchor("yesterday", a) {
        Err(IntervalleError::ParseError(info, input, offset)) => (info, input, offset),
        Ok(v) => panic!("expected a failure, got {:?}", v),
    };
    assert_eq!(info, "date outside the supported years");
    assert_eq!(offset, 0);

    let a = instant(9999, 12, 31, 10, 0, 0);
    let r = TimeSpec::parse_with_anchor("tomorrow", a);
    assert!(matches!(r, Err(IntervalleError::ParseError(_, _, 0))));
}

#[test]
fn instant_new_validates() {
    assert!(Instant::new(2023, 2, 29, 0, 0, 0).is_none());
    assert!(Instant::new(2023, 13, 1, 0, 0, 0).is_none());
    assert!(Instant::new(2023, 1, 1, 24, 0, 0).is_none());
    assert!(Instant::new(2023, 1, 1, 0, 60, 0).is_none());
    assert!(Instant::new(2023, 1, 1, 0, 0, 60).is_none());
    assert!(Instant::new(10000, 1, 1, 0, 0, 0).is_none());
    assert!(Instant::new(0, 1, 1, 0, 0, 0).is_some());
    assert!(Instant::new(9999, 12, 31, 23, 59, 59).is_some());
}

#[test]
fn round_trip_through_to_text() {
    let parsed = TimeSpec::parse_with_anchor("2024-08-08 14:10:11", anchor()).unwrap();
    match parsed {
        TimeSpec::Point(i) => assert_eq!(i.to_text(), "2024-08-08 14:10:11"),
        other => panic!("expected a point, got {:?}", other),
    }
    let parsed = TimeSpec::parse_with_anchor("0007-01-31 05:06", anchor()).unwrap();
    match parsed {
        TimeSpec::Point(i) => assert_eq!(i.to_text(), "0007-01-31 05:06:00"),
        other => panic!("expected a point, got {:?}", other),
    }
}

#[test]
fn rendered_diagnostic_has_caret_at_offset() {
    let err = match TimeSpec::parse_with_anchor("2024-13-01", anchor()) {
        Err(e) => e,
        Ok(v) => panic!("expected a failure, got {:?}", v),
    };
    assert_eq!(
        err.render(),
        "\n    |\n  5 | 2024-13-01\n    |      ^ month out of range"
    );
}

#[test]
fn rendered_diagnostic_at_end_of_input() {
    let err = match TimeSpec::parse_with_anchor("2024-08", anchor()) {
        Err(e) => e,
        Ok(v) => panic!("expected a failure, got {:?}", v),
    };
    assert_eq!(
        err.render(),
        "\n    |\n  7 | 2024-08\n    |        ^ expected '-'"
    );
}

#[test]
fn parse_uses_the_clock_for_its_anchor() {
    let r = TimeSpec::parse("today");
    assert!(matches!(r, Ok(TimeSpec::Point(_))));
    let r = TimeSpec::parse("15:28");
    assert!(matches!(r, Ok(TimeSpec::Point(_))));
    let r = TimeSpec::parse("not a time");
    assert!(r.is_err());
}

#[test]
fn non_ascii_input_fails_cleanly() {
    let (info, input, offset) = failure("heute");
    assert_eq!(info, "expected a date, a time or a keyword");
    assert_eq!(input, "heute");
    assert_eq!(offset, 0);
    let r = TimeSpec::parse_with_anchor("12\u{e9}34", anchor());
    assert!(r.is_err());
}
