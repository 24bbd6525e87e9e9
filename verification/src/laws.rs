//! General properties of the grammar, stated over every input the
//! specification forms can denote and proved once and for all.
use vstd::prelude::*;

use crate::calendar::spec_days_in_month;
use crate::calendar::spec_next_date;
use crate::calendar::spec_prev_date;
use crate::calendar::Instant;
use crate::grammar::FailKind;
use crate::spec_parse;
use crate::TimeSpec;

verus! {

/// The ASCII byte of a decimal digit value.
pub open spec fn digit_byte(d: int) -> u8 {
    (48 + d) as u8
}

/// The two-digit zero-padded byte form of a value in 0..=99.
pub open spec fn two_bytes(n: int) -> Seq<u8> {
    seq![digit_byte(n / 10), digit_byte(n % 10)]
}

/// The four-digit zero-padded byte form of a value in 0..=9999.
pub open spec fn four_bytes(n: int) -> Seq<u8> {
    seq![digit_byte(n / 1000), digit_byte((n / 100) % 10), digit_byte((n / 10) % 10), digit_byte(
        n % 10,
    )]
}

/// The byte form `YYYY-MM-DD` of a date.
pub open spec fn date_bytes(y: int, mo: int, d: int) -> Seq<u8> {
    four_bytes(y) + seq![45u8] + two_bytes(mo) + seq![45u8] + two_bytes(d)
}

/// The byte form `HH:MM` of a time without seconds.
pub open spec fn time_bytes(h: int, mi: int) -> Seq<u8> {
    two_bytes(h) + seq![58u8] + two_bytes(mi)
}

/// The byte form `HH:MM:SS` of a time with seconds.
pub open spec fn time_sec_bytes(h: int, mi: int, s: int) -> Seq<u8> {
    time_bytes(h, mi) + seq![58u8] + two_bytes(s)
}

/// The byte form `YYYY-MM-DD HH:MM:SS` of an instant.
pub open spec fn datetime_bytes(i: Instant) -> Seq<u8> {
    date_bytes(i.year as int, i.month as int, i.day as int) + seq![32u8] + time_sec_bytes(
        i.hour as int,
        i.minute as int,
        i.second as int,
    )
}

/// The byte form of the keyword `today`.
pub open spec fn today_bytes() -> Seq<u8> {
    seq![116u8, 111u8, 100u8, 97u8, 121u8]
}

/// The byte form of the keyword `yesterday`.
pub open spec fn yesterday_bytes() -> Seq<u8> {
    seq![121u8, 101u8, 115u8, 116u8, 101u8, 114u8, 100u8, 97u8, 121u8]
}

/// The byte form of the keyword `tomorrow`.
pub open spec fn tomorrow_bytes() -> Seq<u8> {
    seq![116u8, 111u8, 109u8, 111u8, 114u8, 114u8, 111u8, 119u8]
}

/// Splitting a value in 0..=9999 into its four decimal digits loses
/// nothing.
proof fn lemma_four_digits(n: int)
    requires
        0 <= n <= 9999,
    ensures
        1000 * (n / 1000) + 100 * ((n / 100) % 10) + 10 * ((n / 10) % 10) + n % 10 == n,
{
    vstd::arithmetic::div_mod::lemma_fundamental_div_mod(n, 1000);
    vstd::arithmetic::div_mod::lemma_mod_bound(n, 1000);
    let a = n / 1000;
    let r3 = n % 1000;
    vstd::arithmetic::div_mod::lemma_fundamental_div_mod(r3, 100);
    vstd::arithmetic::div_mod::lemma_mod_bound(r3, 100);
    let b = r3 / 100;
    let r2 = r3 % 100;
    vstd::arithmetic::div_mod::lemma_fundamental_div_mod(r2, 10);
    vstd::arithmetic::div_mod::lemma_mod_bound(r2, 10);
    let c = r2 / 10;
    let e = r2 % 10;
    assert(n == (10 * a + b) * 100 + r2);
    vstd::arithmetic::div_mod::lemma_fundamental_div_mod_converse_div(n, 100, 10 * a + b, r2);
    assert(n / 100 == a * 10 + b);
    vstd::arithmetic::div_mod::lemma_fundamental_div_mod_converse_mod(n / 100, 10, a, b);
    assert(n == (100 * a + 10 * b + c) * 10 + e);
    vstd::arithmetic::div_mod::lemma_fundamental_div_mod_converse_div(
        n,
        10,
        100 * a + 10 * b + c,
        e,
    );
    assert(n / 10 == (10 * a + b) * 10 + c);
    vstd::arithmetic::div_mod::lemma_fundamental_div_mod_converse_mod(n / 10, 10, 10 * a + b, c);
    vstd::arithmetic::div_mod::lemma_fundamental_div_mod_converse_mod(
        n,
        10,
        100 * a + 10 * b + c,
        e,
    );
}

/// Every real calendar date, written as `YYYY-MM-DD`, parses to an exact
/// point at that date at midnight, whatever the anchor.
pub proof fn law_date_only(y: int, mo: int, d: int, a: Instant)
    requires
        crate::calendar::valid_ymd(y, mo, d),
        a.wf(),
    ensures
        spec_parse(date_bytes(y, mo, d), a) == Ok::<TimeSpec, (FailKind, int)>(
            TimeSpec::Point(
                Instant {
                    year: y as u16,
                    month: mo as u8,
                    day: d as u8,
                    hour: 0,
                    minute: 0,
                    second: 0,
                },
            ),
        ),
{
    lemma_four_digits(y);
}

/// Every legal `HH:MM` time, parsed alone, yields an exact point at the
/// anchor's date with that time; the omitted seconds default to zero.
pub proof fn law_time_only(h: int, mi: int, a: Instant)
    requires
        0 <= h <= 23,
        0 <= mi <= 59,
        a.wf(),
    ensures
        spec_parse(time_bytes(h, mi), a) == Ok::<TimeSpec, (FailKind, int)>(
            TimeSpec::Point(
                Instant {
                    year: a.year,
                    month: a.month,
                    day: a.day,
                    hour: h as u8,
                    minute: mi as u8,
                    second: 0,
                },
            ),
        ),
{
}

/// Every legal `HH:MM:SS` time, parsed alone, yields an exact point at the
/// anchor's date with that time.
pub proof fn law_time_only_with_seconds(h: int, mi: int, s: int, a: Instant)
    requires
        0 <= h <= 23,
        0 <= mi <= 59,
        0 <= s <= 59,
        a.wf(),
    ensures
        spec_parse(time_sec_bytes(h, mi, s), a) == Ok::<TimeSpec, (FailKind, int)>(
            TimeSpec::Point(
                Instant {
                    year: a.year,
                    month: a.month,
                    day: a.day,
                    hour: h as u8,
                    minute: mi as u8,
                    second: s as u8,
                },
            ),
        ),
{
}

/// A successful parse of an input with a leading `+` always yields
/// `After`, whichever production matched the rest.
pub proof fn law_leading_plus(t: Seq<u8>, a: Instant)
    requires
        t.len() > 0,
        t[0] == 43,
    ensures
        spec_parse(t, a) matches Ok(ts) ==> ts is After,
{
}

/// A successful parse of an input with a leading `-` always yields
/// `Before`, whichever production matched the rest.
pub proof fn law_leading_minus(t: Seq<u8>, a: Instant)
    requires
        t.len() > 0,
        t[0] == 45,
    ensures
        spec_parse(t, a) matches Ok(ts) ==> ts is Before,
{
}

/// A successful parse of an input with no leading modifier always yields
/// `Point`, whichever production matched.
pub proof fn law_no_modifier(t: Seq<u8>, a: Instant)
    requires
        t.len() == 0 || (t[0] != 43 && t[0] != 45),
    ensures
        spec_parse(t, a) matches Ok(ts) ==> ts is Point,
{
}

/// A byte prepended to the input shifts the whole body of the grammar by
/// one position: the same production matches, the same instant or failure
/// comes out, and failure offsets grow by one.
proof fn lemma_body_shift(c: u8, b: Seq<u8>, a: Instant)
    ensures
        match crate::grammar::spec_body_at(b, 0, a) {
            Ok(i) => crate::grammar::spec_body_at(seq![c] + b, 1, a) == Ok::<
                Instant,
                (FailKind, int),
            >(i),
            Err(e) => crate::grammar::spec_body_at(seq![c] + b, 1, a) == Err::<
                Instant,
                (FailKind, int),
            >((e.0, e.1 + 1)),
        },
{
    let t = seq![c] + b;
    assert(t.len() == 1 + b.len());
    assert forall|i: int| 0 <= i < b.len() implies t[1 + i] == b[i] by {}
    assert(crate::grammar::kw_today_at(t, 1) == crate::grammar::kw_today_at(b, 0));
    assert(crate::grammar::kw_yesterday_at(t, 1) == crate::grammar::kw_yesterday_at(b, 0));
    assert(crate::grammar::kw_tomorrow_at(t, 1) == crate::grammar::kw_tomorrow_at(b, 0));
    assert(crate::grammar::date_committed_at(t, 1) == crate::grammar::date_committed_at(b, 0));
    assert(crate::grammar::time_committed_at(t, 1) == crate::grammar::time_committed_at(b, 0));
    if crate::grammar::date_committed_at(b, 0) {
        assert(crate::grammar::spec_date_at(t, 1) == match crate::grammar::spec_date_at(b, 0) {
            Ok(v) => Ok::<(int, int, int), (FailKind, int)>(v),
            Err(e) => Err::<(int, int, int), (FailKind, int)>((e.0, e.1 + 1)),
        });
        if crate::grammar::spec_date_at(b, 0) is Ok && b.len() > 10 && b[10] == 32
            && crate::grammar::run2_at(b, 11) && 13 < b.len() && b[13] == 58 {
            assert(crate::grammar::spec_time_at(t, 12) == match crate::grammar::spec_time_at(
                b,
                11,
            ) {
                Ok(v) => Ok::<((int, int, int), int), (FailKind, int)>((v.0, v.1 + 1)),
                Err(e) => Err::<((int, int, int), int), (FailKind, int)>((e.0, e.1 + 1)),
            });
        }
    }
    if crate::grammar::time_committed_at(b, 0) {
        assert(crate::grammar::spec_time_at(t, 1) == match crate::grammar::spec_time_at(b, 0) {
            Ok(v) => Ok::<((int, int, int), int), (FailKind, int)>((v.0, v.1 + 1)),
            Err(e) => Err::<((int, int, int), int), (FailKind, int)>((e.0, e.1 + 1)),
        });
    }
}

/// Prepending `+` to a modifier-free input turns the parsed exact point
/// into a lower bound and changes nothing else: the same production
/// matches, the same instant comes out, and a failure keeps its
/// description, its offset grown by the one consumed byte.
pub proof fn law_modifier_plus_orthogonal(b: Seq<u8>, a: Instant)
    requires
        b.len() == 0 || (b[0] != 43 && b[0] != 45),
    ensures
        match spec_parse(b, a) {
            Ok(ts) => spec_parse(seq![43u8] + b, a) == Ok::<TimeSpec, (FailKind, int)>(
                TimeSpec::After(ts->Point_0),
            ),
            Err(e) => spec_parse(seq![43u8] + b, a) == Err::<TimeSpec, (FailKind, int)>(
                (e.0, e.1 + 1),
            ),
        },
{
    law_no_modifier(b, a);
    lemma_body_shift(43u8, b, a);
}

/// Prepending `-` to a modifier-free input turns the parsed exact point
/// into an upper bound and changes nothing else: the same production
/// matches, the same instant comes out, and a failure keeps its
/// description, its offset grown by the one consumed byte.
pub proof fn law_modifier_minus_orthogonal(b: Seq<u8>, a: Instant)
    requires
        b.len() == 0 || (b[0] != 43 && b[0] != 45),
    ensures
        match spec_parse(b, a) {
            Ok(ts) => spec_parse(seq![45u8] + b, a) == Ok::<TimeSpec, (FailKind, int)>(
                TimeSpec::Before(ts->Point_0),
            ),
            Err(e) => spec_parse(seq![45u8] + b, a) == Err::<TimeSpec, (FailKind, int)>(
                (e.0, e.1 + 1),
            ),
        },
{
    law_no_modifier(b, a);
    lemma_body_shift(45u8, b, a);
}

/// `today` parses to an exact point at the anchor's date at midnight,
/// whatever the anchor's time of day.
pub proof fn law_today(a: Instant)
    requires
        a.wf(),
    ensures
        spec_parse(today_bytes(), a) == Ok::<TimeSpec, (FailKind, int)>(
            TimeSpec::Point(a.spec_midnight()),
        ),
{
}

/// `yesterday` parses to an exact point at the anchor's date minus exactly
/// one calendar day, at midnight, whatever the anchor's time of day; it
/// fails only when that day would lie before the supported years.
pub proof fn law_yesterday(a: Instant)
    requires
        a.wf(),
    ensures
        spec_prev_date(a.year as int, a.month as int, a.day as int) matches Some(pd) ==> spec_parse(
            yesterday_bytes(),
            a,
        ) == Ok::<TimeSpec, (FailKind, int)>(
            TimeSpec::Point(
                Instant {
                    year: pd.0 as u16,
                    month: pd.1 as u8,
                    day: pd.2 as u8,
                    hour: 0,
                    minute: 0,
                    second: 0,
                },
            ),
        ),
        spec_prev_date(a.year as int, a.month as int, a.day as int) is None ==> spec_parse(
            yesterday_bytes(),
            a,
        ) == Err::<TimeSpec, (FailKind, int)>((FailKind::DateRange, 0)),
{
}

/// `tomorrow` parses to an exact point at the anchor's date plus exactly
/// one calendar day, at midnight, whatever the anchor's time of day; it
/// fails only when that day would lie after the supported years.
pub proof fn law_tomorrow(a: Instant)
    requires
        a.wf(),
    ensures
        spec_next_date(a.year as int, a.month as int, a.day as int) matches Some(nd) ==> spec_parse(
            tomorrow_bytes(),
            a,
        ) == Ok::<TimeSpec, (FailKind, int)>(
            TimeSpec::Point(
                Instant {
                    year: nd.0 as u16,
                    month: nd.1 as u8,
                    day: nd.2 as u8,
                    hour: 0,
                    minute: 0,
                    second: 0,
                },
            ),
        ),
        spec_next_date(a.year as int, a.month as int, a.day as int) is None ==> spec_parse(
            tomorrow_bytes(),
            a,
        ) == Err::<TimeSpec, (FailKind, int)>((FailKind::DateRange, 0)),
{
}

/// Round trip: a well-formed instant written as `YYYY-MM-DD HH:MM:SS`
/// parses back to an exact point at that very instant, whatever the
/// anchor; since the byte form is a function of the fields alone,
/// re-deriving the string from the parse result reproduces the input.
pub proof fn law_datetime_round_trip(i: Instant, a: Instant)
    requires
        i.wf(),
        a.wf(),
    ensures
        spec_parse(datetime_bytes(i), a) == Ok::<TimeSpec, (FailKind, int)>(TimeSpec::Point(i)),
{
    lemma_four_digits(i.year as int);
}

/// A date whose digits are well-formed but whose month is not in 1..=12
/// fails with a calendar-range complaint at the month field's byte offset,
/// not with a digit-count complaint.
pub proof fn law_month_out_of_range(y: int, mo: int, d: int, a: Instant)
    requires
        0 <= y <= 9999,
        0 <= mo <= 99,
        !(1 <= mo <= 12),
        0 <= d <= 99,
        a.wf(),
    ensures
        spec_parse(date_bytes(y, mo, d), a) == Err::<TimeSpec, (FailKind, int)>(
            (FailKind::MonthRange, 5),
        ),
{
    lemma_four_digits(y);
}

/// A date whose digits and month are well-formed but whose day does not
/// exist in that month fails with a calendar-range complaint at the day
/// field's byte offset.
pub proof fn law_day_out_of_range(y: int, mo: int, d: int, a: Instant)
    requires
        0 <= y <= 9999,
        1 <= mo <= 12,
        0 <= d <= 99,
        !(1 <= d <= spec_days_in_month(y, mo)),
        a.wf(),
    ensures
        spec_parse(date_bytes(y, mo, d), a) == Err::<TimeSpec, (FailKind, int)>(
            (FailKind::DayRange, 8),
        ),
{
    lemma_four_digits(y);
}

} // verus!

