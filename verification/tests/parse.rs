use intervalle::Instant;
use intervalle::TimeSpec;

fn instant(year: u16, month: u8, day: u8, hour: u8, minute: u8, second: u8) -> Instant {
    Instant::new(year, month, day, hour, minute, second).unwrap()
}

#[test]
fn test_today() {
    let target = instant(2023, 11, 11, 0, 0, 0);

    let anchor = instant(2023, 11, 11, 12, 20, 45);

    let parsed = TimeSpec::parse_with_anchor("today", anchor).unwrap();

    assert_eq!(parsed, TimeSpec::Point(target))
}

#[test]
fn test_yesterday() {
    let target = instant(2023, 11, 10, 0, 0, 0);

    let anchor = instant(2023, 11, 11, 12, 20, 45);

    let parsed = TimeSpec::parse_with_anchor("yesterday", anchor).unwrap();

    assert_eq!(parsed, TimeSpec::Point(target))
}

#[test]
fn test_tomorrow() {
    let target = instant(2023, 11, 12, 0, 0, 0);

    let anchor = instant(2023, 11, 11, 12, 20, 45);

    let parsed = TimeSpec::parse_with_anchor("tomorrow", anchor).unwrap();

    assert_eq!(parsed, TimeSpec::Point(target))
}

#[test]
fn test_date_time() {
    let target = instant(2024, 8, 8, 14, 10, 11);

    let anchor = instant(2023, 11, 11, 12, 20, 45);

    let parsed = TimeSpec::parse_with_anchor("2024-08-08 14:10:11", anchor).unwrap();

    assert_eq!(parsed, TimeSpec::Point(target))
}

#[test]
fn test_date_time_no_sec() {
    let target = instant(2024, 8, 8, 14, 10, 0);

    let anchor = instant(2023, 11, 11, 12, 20, 45);

    let parsed = TimeSpec::parse_with_anchor("2024-08-08 14:10", anchor).unwrap();

    assert_eq!(parsed, TimeSpec::Point(target))
}

#[test]
fn test_date() {
    let target = instant(2024, 8, 8, 0, 0, 0);

    let anchor = instant(2023, 11, 11, 12, 20, 45);

    let parsed = TimeSpec::parse_with_anchor("2024-08-08", anchor).unwrap();

    assert_eq!(parsed, TimeSpec::Point(target))
}

#[test]
fn test_time() {
    let target = instant(2024, 8, 8, 15, 27, 59);

    let anchor = instant(2024, 8, 8, 12, 20, 45);

    let parsed = TimeSpec::parse_with_anchor("15:27:59", anchor).unwrap();

    assert_eq!(parsed, TimeSpec::Point(target))
}

#[test]
fn test_time_no_sec() {
    let target = instant(2024, 8, 8, 15, 28, 0);

    let anchor = instant(2024, 8, 8, 12, 20, 45);

    let parsed = TimeSpec::parse_with_anchor("15:28", anchor).unwrap();

    assert_eq!(parsed, TimeSpec::Point(target))
}

#[test]
fn test_before_time_no_sec() {
    let target = instant(2024, 8, 8, 15, 28, 0);

    let anchor = instant(2024, 8, 8, 12, 20, 45);

    let parsed = TimeSpec::parse_with_anchor("-15:28", anchor).unwrap();

    assert_eq!(parsed, TimeSpec::Before(target))
}

#[test]
fn test_after_time_no_sec() {
    let target = instant(2024, 8, 8, 15, 28, 0);

    let anchor = instant(2024, 8, 8, 12, 20, 45);

    let parsed = TimeSpec::parse_with_anchor("+15:28", anchor).unwrap();

    assert_eq!(parsed, TimeSpec::After(target))
}
