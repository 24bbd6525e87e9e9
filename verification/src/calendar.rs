//! Calendar dates and wall-clock times as plain validated fields, and the
//! day-granularity arithmetic used to resolve `yesterday` and `tomorrow`.
use vstd::prelude::*;

verus! {

/// A proleptic-Gregorian leap year.
pub open spec fn spec_is_leap(y: int) -> bool {
    y % 4 == 0 && (y % 100 != 0 || y % 400 == 0)
}

/// Number of days in the given month of the given year.
pub open spec fn spec_days_in_month(y: int, m: int) -> int
    recommends
        1 <= m <= 12,
{
    if m == 2 {
        if spec_is_leap(y) {
            29
        } else {
            28
        }
    } else if m == 4 || m == 6 || m == 9 || m == 11 {
        30
    } else {
        31
    }
}

/// A real calendar date within the supported year range 0..=9999 (the range
/// the four-digit year grammar can denote).
pub open spec fn valid_ymd(y: int, m: int, d: int) -> bool {
    &&& 0 <= y <= 9999
    &&& 1 <= m <= 12
    &&& 1 <= d <= spec_days_in_month(y, m)
}

/// A legal wall-clock time of day.
pub open spec fn valid_hms(h: int, mi: int, s: int) -> bool {
    &&& 0 <= h <= 23
    &&& 0 <= mi <= 59
    &&& 0 <= s <= 59
}

/// A calendar date combined with a wall-clock time, no timezone attached.
#[derive(PartialEq, Eq, Structural, Clone, Copy, Debug)]
pub struct Instant {
    pub year: u16,
    pub month: u8,
    pub day: u8,
    pub hour: u8,
    pub minute: u8,
    pub second: u8,
}

impl Instant {
    /// The fields name a real calendar date and a legal time of day.
    pub open spec fn wf(self) -> bool {
        &&& valid_ymd(self.year as int, self.month as int, self.day as int)
        &&& valid_hms(self.hour as int, self.minute as int, self.second as int)
    }

    /// The same date with the time component zeroed.
    pub open spec fn spec_midnight(self) -> Instant {
        Instant { hour: 0, minute: 0, second: 0, ..self }
    }

    /// Builds an instant from raw fields, validating them; `None` exactly
    /// when the fields do not name a real date and a legal time.
    pub fn new(year: u16, month: u8, day: u8, hour: u8, minute: u8, second: u8) -> (r: Option<
        Instant,
    >)
        ensures
            r is Some <==> (valid_ymd(year as int, month as int, day as int) && valid_hms(
                hour as int,
                minute as int,
                second as int,
            )),
            r matches Some(i) ==> i == (Instant { year, month, day, hour, minute, second })
                && i.wf(),
    {
        if year <= 9999 && 1 <= month && month <= 12 && 1 <= day && day <= days_in_month(
            year,
            month,
        ) && hour <= 23 && minute <= 59 && second <= 59 {
            Some(Instant { year, month, day, hour, minute, second })
        } else {
            None
        }
    }

    /// The same date at midnight.
    pub fn midnight(&self) -> (r: Instant)
        ensures
            r == self.spec_midnight(),
    {
        Instant {
            year: self.year,
            month: self.month,
            day: self.day,
            hour: 0,
            minute: 0,
            second: 0,
        }
    }
}

/// Number of days in the given month.
pub fn days_in_month(year: u16, month: u8) -> (r: u8)
    requires
        1 <= month <= 12,
    ensures
        r as int == spec_days_in_month(year as int, month as int),
{
    if month == 2 {
        if year % 4 == 0 && (year % 100 != 0 || year % 400 == 0) {
            29
        } else {
            28
        }
    } else if month == 4 || month == 6 || month == 9 || month == 11 {
        30
    } else {
        31
    }
}

/// The date exactly one calendar day earlier, or `None` when that day lies
/// before year 0, outside the supported range.
pub open spec fn spec_prev_date(y: int, m: int, d: int) -> Option<(int, int, int)>
    recommends
        valid_ymd(y, m, d),
{
    if d > 1 {
        Some((y, m, d - 1))
    } else if m > 1 {
        Some((y, m - 1, spec_days_in_month(y, m - 1)))
    } else if y > 0 {
        Some((y - 1, 12, 31))
    } else {
        None
    }
}

/// The date exactly one calendar day later, or `None` when that day lies
/// after year 9999, outside the supported range.
pub open spec fn spec_next_date(y: int, m: int, d: int) -> Option<(int, int, int)>
    recommends
        valid_ymd(y, m, d),
{
    if d < spec_days_in_month(y, m) {
        Some((y, m, d + 1))
    } else if m < 12 {
        Some((y, m + 1, 1))
    } else if y < 9999 {
        Some((y + 1, 1, 1))
    } else {
        None
    }
}

/// The anchor's date minus exactly one calendar day, at midnight; `None`
/// only when the anchor is the very first supported day.
pub fn yesterday(anchor: &Instant) -> (r: Option<Instant>)
    requires
        anchor.wf(),
    ensures
        r is Some <==> spec_prev_date(anchor.year as int, anchor.month as int, anchor.day as int)
            is Some,
        r matches Some(i) ==> spec_prev_date(
            anchor.year as int,
            anchor.month as int,
            anchor.day as int,
        ) == Some((i.year as int, i.month as int, i.day as int)) && i.hour == 0 && i.minute == 0
            && i.second == 0 && i.wf(),
{
    if anchor.day > 1 {
        Some(
            Instant {
                year: anchor.year,
                month: anchor.month,
                day: anchor.day - 1,
                hour: 0,
                minute: 0,
                second: 0,
            },
        )
    } else if anchor.month > 1 {
        let pm = anchor.month - 1;
        Some(
            Instant {
                year: anchor.year,
                month: pm,
                day: days_in_month(anchor.year, pm),
                hour: 0,
                minute: 0,
                second: 0,
            },
        )
    } else if anchor.year > 0 {
        Some(
            Instant {
                year: anchor.year - 1,
                month: 12,
                day: 31,
                hour: 0,
                minute: 0,
                second: 0,
            },
        )
    } else {
        None
    }
}

/// The anchor's date plus exactly one calendar day, at midnight; `None`
/// only when the anchor is the very last supported day.
pub fn tomorrow(anchor: &Instant) -> (r: Option<Instant>)
    requires
        anchor.wf(),
    ensures
        r is Some <==> spec_next_date(anchor.year as int, anchor.month as int, anchor.day as int)
            is Some,
        r matches Some(i) ==> spec_next_date(
            anchor.year as int,
            anchor.month as int,
            anchor.day as int,
        ) == Some((i.year as int, i.month as int, i.day as int)) && i.hour == 0 && i.minute == 0
            && i.second == 0 && i.wf(),
{
    let dim = days_in_month(anchor.year, anchor.month);
    if anchor.day < dim {
        Some(
            Instant {
                year: anchor.year,
                month: anchor.month,
                day: anchor.day + 1,
                hour: 0,
                minute: 0,
                second: 0,
            },
        )
    } else if anchor.month < 12 {
        Some(
            Instant {
                year: anchor.year,
                month: anchor.month + 1,
                day: 1,
                hour: 0,
                minute: 0,
                second: 0,
            },
        )
    } else if anchor.year < 9999 {
        Some(
            Instant {
                year: anchor.year + 1,
                month: 1,
                day: 1,
                hour: 0,
                minute: 0,
                second: 0,
            },
        )
    } else {
        None
    }
}

/// Stepping one day back and then one day forward returns to the same date:
/// the `yesterday` shift is exactly one calendar day.
pub proof fn lemma_prev_then_next(y: int, m: int, d: int)
    requires
        valid_ymd(y, m, d),
        spec_prev_date(y, m, d) is Some,
    ensures
        spec_next_date(
            spec_prev_date(y, m, d)->Some_0.0,
            spec_prev_date(y, m, d)->Some_0.1,
            spec_prev_date(y, m, d)->Some_0.2,
        ) == Some((y, m, d)),
{
}

/// Stepping one day forward and then one day back returns to the same date:
/// the `tomorrow` shift is exactly one calendar day.
pub proof fn lemma_next_then_prev(y: int, m: int, d: int)
    requires
        valid_ymd(y, m, d),
        spec_next_date(y, m, d) is Some,
    ensures
        spec_prev_date(
            spec_next_date(y, m, d)->Some_0.0,
            spec_next_date(y, m, d)->Some_0.1,
            spec_next_date(y, m, d)->Some_0.2,
        ) == Some((y, m, d)),
{
}

} // verus!
