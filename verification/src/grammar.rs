//! The fixed ASCII grammar of a time specification, stated over the byte
//! sequence of the input, and the parser proved against that statement.
//!
//! The grammar tries, in order: the keywords `today` / `yesterday` /
//! `tomorrow`, a date followed by one space and a time, a date alone, a time
//! alone. A date is `YYYY-MM-DD`, a time is `HH:MM` or `HH:MM:SS`, every
//! numeric field an exact-width run of decimal digits. Once a branch's
//! distinguishing delimiter has matched (`-` after a four-digit year, `:`
//! after a two-digit hour, the space before the time of a date-time), the
//! branch is committed: a later mismatch fails the whole parse at its own
//! byte offset instead of falling through to a sibling branch.
use vstd::prelude::*;

use crate::calendar::days_in_month;
use crate::calendar::spec_days_in_month;
use crate::calendar::spec_next_date;
use crate::calendar::spec_prev_date;
use crate::calendar::tomorrow;
use crate::calendar::yesterday;
use crate::calendar::Instant;

verus! {

/// What a parse failure complains about.
#[derive(PartialEq, Eq, Structural, Clone, Copy, Debug)]
pub enum FailKind {
    /// A two-digit field held the wrong number of decimal digits.
    DigitCount,
    /// The `-` between date fields was not found.
    MissingDash,
    /// The `:` between time fields was not found.
    MissingColon,
    /// The month is not in 1..=12.
    MonthRange,
    /// The day does not exist in that month of that year.
    DayRange,
    /// The hour is not in 0..=23.
    HourRange,
    /// The minute is not in 0..=59.
    MinuteRange,
    /// The second is not in 0..=59.
    SecondRange,
    /// The resolved day lies outside the supported years 0..=9999.
    DateRange,
    /// No grammar alternative matched at the decision point.
    NoAlternative,
    /// A production matched but input remains.
    Trailing,
}

/// A parse failure: what was expected, and the byte offset where matching
/// diverged.
#[derive(PartialEq, Eq, Structural, Clone, Copy, Debug)]
pub struct Fail {
    pub kind: FailKind,
    pub offset: usize,
}

/// An ASCII decimal digit.
pub open spec fn is_digit(b: u8) -> bool {
    48 <= b <= 57
}

/// The numeric value of a digit byte.
pub open spec fn dval(b: u8) -> int {
    b - 48
}

/// Position `i` exists and holds a digit.
pub open spec fn digit_at(t: Seq<u8>, i: int) -> bool {
    0 <= i < t.len() && is_digit(t[i])
}

/// A maximal digit run of length exactly two starts at `i`.
pub open spec fn run2_at(t: Seq<u8>, i: int) -> bool {
    digit_at(t, i) && digit_at(t, i + 1) && !digit_at(t, i + 2)
}

/// Value of the two-digit field at `i`.
pub open spec fn two_at(t: Seq<u8>, i: int) -> int {
    10 * dval(t[i]) + dval(t[i + 1])
}

/// Value of the four-digit field at `i`.
pub open spec fn four_at(t: Seq<u8>, i: int) -> int {
    1000 * dval(t[i]) + 100 * dval(t[i + 1]) + 10 * dval(t[i + 2]) + dval(t[i + 3])
}

/// `today` starts at `p`.
pub open spec fn kw_today_at(t: Seq<u8>, p: int) -> bool {
    &&& p + 5 <= t.len()
    &&& t[p] == 116
    &&& t[p + 1] == 111
    &&& t[p + 2] == 100
    &&& t[p + 3] == 97
    &&& t[p + 4] == 121
}

/// `yesterday` starts at `p`.
pub open spec fn kw_yesterday_at(t: Seq<u8>, p: int) -> bool {
    &&& p + 9 <= t.len()
    &&& t[p] == 121
    &&& t[p + 1] == 101
    &&& t[p + 2] == 115
    &&& t[p + 3] == 116
    &&& t[p + 4] == 101
    &&& t[p + 5] == 114
    &&& t[p + 6] == 100
    &&& t[p + 7] == 97
    &&& t[p + 8] == 121
}

/// `tomorrow` starts at `p`.
pub open spec fn kw_tomorrow_at(t: Seq<u8>, p: int) -> bool {
    &&& p + 8 <= t.len()
    &&& t[p] == 116
    &&& t[p + 1] == 111
    &&& t[p + 2] == 109
    &&& t[p + 3] == 111
    &&& t[p + 4] == 114
    &&& t[p + 5] == 114
    &&& t[p + 6] == 111
    &&& t[p + 7] == 119
}

/// A four-digit year followed by `-` starts at `p`: the date branch has
/// matched its distinguishing token and is committed.
pub open spec fn date_committed_at(t: Seq<u8>, p: int) -> bool {
    &&& digit_at(t, p)
    &&& digit_at(t, p + 1)
    &&& digit_at(t, p + 2)
    &&& digit_at(t, p + 3)
    &&& p + 4 < t.len()
    &&& t[p + 4] == 45
}

/// A two-digit hour followed by `:` starts at `p`: the time branch has
/// matched its distinguishing token and is committed.
pub open spec fn time_committed_at(t: Seq<u8>, p: int) -> bool {
    &&& digit_at(t, p)
    &&& digit_at(t, p + 1)
    &&& p + 2 < t.len()
    &&& t[p + 2] == 58
}

/// Outcome of the committed date production at `p`: the (year, month, day)
/// it names, or the first failure. Shape is checked left to right, then the
/// month range, then the day range.
pub open spec fn spec_date_at(t: Seq<u8>, p: int) -> Result<(int, int, int), (FailKind, int)>
    recommends
        date_committed_at(t, p),
{
    if !run2_at(t, p + 5) {
        Err((FailKind::DigitCount, p + 5))
    } else if !(p + 7 < t.len() && t[p + 7] == 45) {
        Err((FailKind::MissingDash, p + 7))
    } else if !run2_at(t, p + 8) {
        Err((FailKind::DigitCount, p + 8))
    } else {
        let y = four_at(t, p);
        let mo = two_at(t, p + 5);
        let d = two_at(t, p + 8);
        if !(1 <= mo <= 12) {
            Err((FailKind::MonthRange, p + 5))
        } else if !(1 <= d <= spec_days_in_month(y, mo)) {
            Err((FailKind::DayRange, p + 8))
        } else {
            Ok((y, mo, d))
        }
    }
}

/// Outcome of the committed time production at `p`: the (hour, minute,
/// second) it names and the position just past it, or the first failure.
/// Seconds are present exactly when a `:` follows the minutes; shape is
/// checked before the hour, minute and second ranges, in that order.
pub open spec fn spec_time_at(t: Seq<u8>, p: int) -> Result<
    ((int, int, int), int),
    (FailKind, int),
>
    recommends
        time_committed_at(t, p),
{
    if !run2_at(t, p + 3) {
        Err((FailKind::DigitCount, p + 3))
    } else {
        let has_sec = p + 5 < t.len() && t[p + 5] == 58;
        if has_sec && !run2_at(t, p + 6) {
            Err((FailKind::DigitCount, p + 6))
        } else {
            let h = two_at(t, p);
            let mi = two_at(t, p + 3);
            let s = if has_sec {
                two_at(t, p + 6)
            } else {
                0
            };
            if h > 23 {
                Err((FailKind::HourRange, p))
            } else if mi > 59 {
                Err((FailKind::MinuteRange, p + 3))
            } else if s > 59 {
                Err((FailKind::SecondRange, p + 6))
            } else {
                Ok(((h, mi, s), if has_sec {
                    p + 8
                } else {
                    p + 5
                }))
            }
        }
    }
}

/// Outcome of the grammar after the optional modifier, whose first byte sits
/// at `p`: the instant the specification denotes against the given anchor,
/// or the first failure with its byte offset. The alternatives are tried in
/// the fixed order keyword, date-and-time, date, time; the first whose
/// distinguishing token matches decides.
pub open spec fn spec_body_at(t: Seq<u8>, p: int, anchor: Instant) -> Result<
    Instant,
    (FailKind, int),
> {
    if kw_today_at(t, p) {
        if t.len() > p + 5 {
            Err((FailKind::Trailing, p + 5))
        } else {
            Ok(anchor.spec_midnight())
        }
    } else if kw_yesterday_at(t, p) {
        if t.len() > p + 9 {
            Err((FailKind::Trailing, p + 9))
        } else {
            match spec_prev_date(anchor.year as int, anchor.month as int, anchor.day as int) {
                Some(pd) => Ok(
                    Instant {
                        year: pd.0 as u16,
                        month: pd.1 as u8,
                        day: pd.2 as u8,
                        hour: 0,
                        minute: 0,
                        second: 0,
                    },
                ),
                None => Err((FailKind::DateRange, p)),
            }
        }
    } else if kw_tomorrow_at(t, p) {
        if t.len() > p + 8 {
            Err((FailKind::Trailing, p + 8))
        } else {
            match spec_next_date(anchor.year as int, anchor.month as int, anchor.day as int) {
                Some(nd) => Ok(
                    Instant {
                        year: nd.0 as u16,
                        month: nd.1 as u8,
                        day: nd.2 as u8,
                        hour: 0,
                        minute: 0,
                        second: 0,
                    },
                ),
                None => Err((FailKind::DateRange, p)),
            }
        }
    } else if date_committed_at(t, p) {
        match spec_date_at(t, p) {
            Err(e) => Err(e),
            Ok(ymd) => {
                if t.len() == p + 10 {
                    Ok(
                        Instant {
                            year: ymd.0 as u16,
                            month: ymd.1 as u8,
                            day: ymd.2 as u8,
                            hour: 0,
                            minute: 0,
                            second: 0,
                        },
                    )
                } else if t[p + 10] == 32 {
                    if !run2_at(t, p + 11) {
                        Err((FailKind::DigitCount, p + 11))
                    } else if !(p + 13 < t.len() && t[p + 13] == 58) {
                        Err((FailKind::MissingColon, p + 13))
                    } else {
                        match spec_time_at(t, p + 11) {
                            Err(e) => Err(e),
                            Ok(tv) => {
                                if tv.1 < t.len() {
                                    Err((FailKind::Trailing, tv.1))
                                } else {
                                    Ok(
                                        Instant {
                                            year: ymd.0 as u16,
                                            month: ymd.1 as u8,
                                            day: ymd.2 as u8,
                                            hour: tv.0.0 as u8,
                                            minute: tv.0.1 as u8,
                                            second: tv.0.2 as u8,
                                        },
                                    )
                                }
                            },
                        }
                    }
                } else {
                    Err((FailKind::Trailing, p + 10))
                }
            },
        }
    } else if time_committed_at(t, p) {
        match spec_time_at(t, p) {
            Err(e) => Err(e),
            Ok(tv) => {
                if tv.1 < t.len() {
                    Err((FailKind::Trailing, tv.1))
                } else {
                    Ok(
                        Instant {
                            year: anchor.year,
                            month: anchor.month,
                            day: anchor.day,
                            hour: tv.0.0 as u8,
                            minute: tv.0.1 as u8,
                            second: tv.0.2 as u8,
                        },
                    )
                }
            },
        }
    } else {
        Err((FailKind::NoAlternative, p))
    }
}

/// Position `i` exists and holds a digit.
fn digit_at_x(v: &Vec<u8>, i: usize) -> (r: bool)
    ensures
        r == digit_at(v@, i as int),
{
    i < v.len() && 48 <= v[i] && v[i] <= 57
}

/// A maximal digit run of length exactly two starts at `i`.
fn run2_at_x(v: &Vec<u8>, i: usize) -> (r: bool)
    ensures
        r == run2_at(v@, i as int),
{
    let n = v.len();
    if !digit_at_x(v, i) {
        return false;
    }
    if !digit_at_x(v, i + 1) {
        return false;
    }
    assert(i + 1 < n);
    !digit_at_x(v, i + 2)
}

/// Value of the two-digit field at `i`.
fn two_at_x(v: &Vec<u8>, i: usize) -> (r: u8)
    requires
        digit_at(v@, i as int),
        digit_at(v@, i as int + 1),
    ensures
        r as int == two_at(v@, i as int),
        r < 100,
{
    let n = v.len();
    assert(i + 1 < n);
    10 * (v[i] - 48) + (v[i + 1] - 48)
}

/// Value of the four-digit field at `i`.
fn four_at_x(v: &Vec<u8>, i: usize) -> (r: u16)
    requires
        digit_at(v@, i as int),
        digit_at(v@, i as int + 1),
        digit_at(v@, i as int + 2),
        digit_at(v@, i as int + 3),
    ensures
        r as int == four_at(v@, i as int),
        r < 10000,
{
    let n = v.len();
    assert(i + 3 < n);
    1000 * ((v[i] - 48) as u16) + 100 * ((v[i + 1] - 48) as u16) + 10 * ((v[i + 2]
        - 48) as u16) + ((v[i + 3] - 48) as u16)
}

/// `today` starts at `p`.
fn kw_today_x(v: &Vec<u8>, p: usize) -> (r: bool)
    requires
        p <= 1,
    ensures
        r == kw_today_at(v@, p as int),
{
    p + 5 <= v.len() && v[p] == 116 && v[p + 1] == 111 && v[p + 2] == 100 && v[p + 3] == 97
        && v[p + 4] == 121
}

/// `yesterday` starts at `p`.
fn kw_yesterday_x(v: &Vec<u8>, p: usize) -> (r: bool)
    requires
        p <= 1,
    ensures
        r == kw_yesterday_at(v@, p as int),
{
    p + 9 <= v.len() && v[p] == 121 && v[p + 1] == 101 && v[p + 2] == 115 && v[p + 3] == 116
        && v[p + 4] == 101 && v[p + 5] == 114 && v[p + 6] == 100 && v[p + 7] == 97 && v[p + 8]
        == 121
}

/// `tomorrow` starts at `p`.
fn kw_tomorrow_x(v: &Vec<u8>, p: usize) -> (r: bool)
    requires
        p <= 1,
    ensures
        r == kw_tomorrow_at(v@, p as int),
{
    p + 8 <= v.len() && v[p] == 116 && v[p + 1] == 111 && v[p + 2] == 109 && v[p + 3] == 111
        && v[p + 4] == 114 && v[p + 5] == 114 && v[p + 6] == 111 && v[p + 7] == 119
}

/// The committed date production at `p`.
fn parse_date_at(v: &Vec<u8>, p: usize) -> (r: Result<(u16, u8, u8), Fail>)
    requires
        p <= 1,
        date_committed_at(v@, p as int),
    ensures
        ({
            let s = spec_date_at(v@, p as int);
            match r {
                Ok(ymd) => s == Ok::<(int, int, int), (FailKind, int)>(
                    (ymd.0 as int, ymd.1 as int, ymd.2 as int),
                ),
                Err(f) => s == Err::<(int, int, int), (FailKind, int)>(
                    (f.kind, f.offset as int),
                ),
            }
        }),
{
    if !run2_at_x(v, p + 5) {
        Err(Fail { kind: FailKind::DigitCount, offset: p + 5 })
    } else if !(p + 7 < v.len() && v[p + 7] == 45) {
        Err(Fail { kind: FailKind::MissingDash, offset: p + 7 })
    } else if !run2_at_x(v, p + 8) {
        Err(Fail { kind: FailKind::DigitCount, offset: p + 8 })
    } else {
        let y = four_at_x(v, p);
        let mo = two_at_x(v, p + 5);
        let d = two_at_x(v, p + 8);
        if !(1 <= mo && mo <= 12) {
            Err(Fail { kind: FailKind::MonthRange, offset: p + 5 })
        } else if !(1 <= d && d <= days_in_month(y, mo)) {
            Err(Fail { kind: FailKind::DayRange, offset: p + 8 })
        } else {
            Ok((y, mo, d))
        }
    }
}

/// The committed time production at `p`: the fields and the position just
/// past them.
fn parse_time_at(v: &Vec<u8>, p: usize) -> (r: Result<((u8, u8, u8), usize), Fail>)
    requires
        p <= 12,
        time_committed_at(v@, p as int),
    ensures
        ({
            let s = spec_time_at(v@, p as int);
            match r {
                Ok(tv) => s == Ok::<((int, int, int), int), (FailKind, int)>(
                    ((tv.0.0 as int, tv.0.1 as int, tv.0.2 as int), tv.1 as int),
                ),
                Err(f) => s == Err::<((int, int, int), int), (FailKind, int)>(
                    (f.kind, f.offset as int),
                ),
            }
        }),
{
    if !run2_at_x(v, p + 3) {
        Err(Fail { kind: FailKind::DigitCount, offset: p + 3 })
    } else {
        let has_sec = p + 5 < v.len() && v[p + 5] == 58;
        if has_sec && !run2_at_x(v, p + 6) {
            Err(Fail { kind: FailKind::DigitCount, offset: p + 6 })
        } else {
            let h = two_at_x(v, p);
            let mi = two_at_x(v, p + 3);
            let s = if has_sec {
                two_at_x(v, p + 6)
            } else {
                0
            };
            if h > 23 {
                Err(Fail { kind: FailKind::HourRange, offset: p })
            } else if mi > 59 {
                Err(Fail { kind: FailKind::MinuteRange, offset: p + 3 })
            } else if s > 59 {
                Err(Fail { kind: FailKind::SecondRange, offset: p + 6 })
            } else {
                Ok(((h, mi, s), if has_sec {
                    p + 8
                } else {
                    p + 5
                }))
            }
        }
    }
}

/// Runs the grammar after the optional modifier, whose first byte sits at
/// `p`, resolving relative forms against the anchor.
pub(crate) fn parse_body(v: &Vec<u8>, p: usize, anchor: &Instant) -> (r: Result<Instant, Fail>)
    requires
        p <= 1,
        anchor.wf(),
    ensures
        ({
            let s = spec_body_at(v@, p as int, *anchor);
            match r {
                Ok(i) => s == Ok::<Instant, (FailKind, int)>(i) && i.wf(),
                Err(f) => s == Err::<Instant, (FailKind, int)>((f.kind, f.offset as int)),
            }
        }),
{
    if kw_today_x(v, p) {
        if v.len() > p + 5 {
            Err(Fail { kind: FailKind::Trailing, offset: p + 5 })
        } else {
            Ok(anchor.midnight())
        }
    } else if kw_yesterday_x(v, p) {
        if v.len() > p + 9 {
            Err(Fail { kind: FailKind::Trailing, offset: p + 9 })
        } else {
            match yesterday(anchor) {
                Some(i) => Ok(i),
                None => Err(Fail { kind: FailKind::DateRange, offset: p }),
            }
        }
    } else if kw_tomorrow_x(v, p) {
        if v.len() > p + 8 {
            Err(Fail { kind: FailKind::Trailing, offset: p + 8 })
        } else {
            match tomorrow(anchor) {
                Some(i) => Ok(i),
                None => Err(Fail { kind: FailKind::DateRange, offset: p }),
            }
        }
    } else if digit_at_x(v, p) && digit_at_x(v, p + 1) && digit_at_x(v, p + 2) && digit_at_x(
        v,
        p + 3,
    ) && p + 4 < v.len() && v[p + 4] == 45 {
        match parse_date_at(v, p) {
            Err(f) => Err(f),
            Ok((y, mo, d)) => {
                if v.len() == p + 10 {
                    Ok(Instant { year: y, month: mo, day: d, hour: 0, minute: 0, second: 0 })
                } else if v[p + 10] == 32 {
                    if !run2_at_x(v, p + 11) {
                        Err(Fail { kind: FailKind::DigitCount, offset: p + 11 })
                    } else if !(p + 13 < v.len() && v[p + 13] == 58) {
                        Err(Fail { kind: FailKind::MissingColon, offset: p + 13 })
                    } else {
                        match parse_time_at(v, p + 11) {
                            Err(f) => Err(f),
                            Ok(((h, mi, s), end)) => {
                                if end < v.len() {
                                    Err(Fail { kind: FailKind::Trailing, offset: end })
                                } else {
                                    Ok(
                                        Instant {
                                            year: y,
                                            month: mo,
                                            day: d,
                                            hour: h,
                                            minute: mi,
                                            second: s,
                                        },
                                    )
                                }
                            },
                        }
                    }
                } else {
                    Err(Fail { kind: FailKind::Trailing, offset: p + 10 })
                }
            },
        }
    } else if digit_at_x(v, p) && digit_at_x(v, p + 1) && p + 2 < v.len() && v[p + 2] == 58 {
        match parse_time_at(v, p) {
            Err(f) => Err(f),
            Ok(((h, mi, s), end)) => {
                if end < v.len() {
                    Err(Fail { kind: FailKind::Trailing, offset: end })
                } else {
                    Ok(
                        Instant {
                            year: anchor.year,
                            month: anchor.month,
                            day: anchor.day,
                            hour: h,
                            minute: mi,
                            second: s,
                        },
                    )
                }
            },
        }
    } else {
        Err(Fail { kind: FailKind::NoAlternative, offset: p })
    }
}

} // verus!
