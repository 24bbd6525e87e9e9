//! Turning a parse failure into the caret-annotated, human-readable
//! diagnostic: the input on one line, a caret aligned under the failing
//! byte offset on the next, followed by a description of what was expected.
use vstd::prelude::*;
use vstd::string::StringExecFns;

use crate::calendar::Instant;
use crate::grammar::FailKind;

verus! {

/// The description of what was expected, for each failure kind.
pub open spec fn kind_text(k: FailKind) -> Seq<char> {
    match k {
        FailKind::DigitCount => "expected 2 digits"@,
        FailKind::MissingDash => "expected '-'"@,
        FailKind::MissingColon => "expected ':'"@,
        FailKind::MonthRange => "month out of range"@,
        FailKind::DayRange => "day out of range for this month"@,
        FailKind::HourRange => "hour out of range"@,
        FailKind::MinuteRange => "minute out of range"@,
        FailKind::SecondRange => "second out of range"@,
        FailKind::DateRange => "date outside the supported years"@,
        FailKind::NoAlternative => "expected a date, a time or a keyword"@,
        FailKind::Trailing => "unexpected trailing input"@,
    }
}

/// The description of what was expected, for each failure kind.
pub fn kind_str(k: FailKind) -> (r: &'static str)
    ensures
        r@ == kind_text(k),
{
    match k {
        FailKind::DigitCount => "expected 2 digits",
        FailKind::MissingDash => "expected '-'",
        FailKind::MissingColon => "expected ':'",
        FailKind::MonthRange => "month out of range",
        FailKind::DayRange => "day out of range for this month",
        FailKind::HourRange => "hour out of range",
        FailKind::MinuteRange => "minute out of range",
        FailKind::SecondRange => "second out of range",
        FailKind::DateRange => "date outside the supported years",
        FailKind::NoAlternative => "expected a date, a time or a keyword",
        FailKind::Trailing => "unexpected trailing input",
    }
}

/// The decimal digit character for a value in 0..=9.
pub open spec fn digit_char(d: int) -> char {
    if d == 0 {
        '0'
    } else if d == 1 {
        '1'
    } else if d == 2 {
        '2'
    } else if d == 3 {
        '3'
    } else if d == 4 {
        '4'
    } else if d == 5 {
        '5'
    } else if d == 6 {
        '6'
    } else if d == 7 {
        '7'
    } else if d == 8 {
        '8'
    } else {
        '9'
    }
}

/// The decimal rendering of a number, most significant digit first, with no
/// leading zero except for the number zero itself.
pub open spec fn dec_chars(n: nat) -> Seq<char>
    decreases n,
{
    if n < 10 {
        seq![digit_char(n as int)]
    } else {
        dec_chars(n / 10) + seq![digit_char((n % 10) as int)]
    }
}

/// A run of spaces.
pub open spec fn spaces(n: nat) -> Seq<char> {
    Seq::new(n, |i: int| ' ')
}

/// The spaces that right-align the decimal rendering of `n` to width three.
pub open spec fn pad_chars(n: nat) -> Seq<char> {
    if n < 10 {
        spaces(2)
    } else if n < 100 {
        spaces(1)
    } else {
        spaces(0)
    }
}

/// The rendered diagnostic: the byte offset right-aligned to width three
/// and the input text on one line, then a caret under the failing offset
/// followed by the description of what was expected.
pub open spec fn render_text(info: Seq<char>, input: Seq<char>, offset: nat) -> Seq<char> {
    "\n    |\n"@ + pad_chars(offset) + dec_chars(offset) + " | "@ + input + "\n    | "@ + spaces(
        offset,
    ) + "^ "@ + info
}

/// The single-character string for a digit value.
fn digit_str(d: u8) -> (r: &'static str)
    requires
        d < 10,
    ensures
        r@ == seq![digit_char(d as int)],
{
    let r: &'static str = match d {
        0 => "0",
        1 => "1",
        2 => "2",
        3 => "3",
        4 => "4",
        5 => "5",
        6 => "6",
        7 => "7",
        8 => "8",
        _ => "9",
    };
    proof {
        reveal_strlit("0");
        reveal_strlit("1");
        reveal_strlit("2");
        reveal_strlit("3");
        reveal_strlit("4");
        reveal_strlit("5");
        reveal_strlit("6");
        reveal_strlit("7");
        reveal_strlit("8");
        reveal_strlit("9");
        assert(r@ =~= seq![digit_char(d as int)]);
    }
    r
}

/// The decimal rendering of a number.
pub fn num_string(n: usize) -> (r: String)
    ensures
        r@ == dec_chars(n as nat),
    decreases n,
{
    if n < 10 {
        String::from_str(digit_str(n as u8))
    } else {
        let mut s = num_string(n / 10);
        s.append(digit_str((n % 10) as u8));
        s
    }
}

/// The two-digit zero-padded rendering of a value in 0..=99.
pub open spec fn two_digit_chars(n: int) -> Seq<char> {
    seq![digit_char(n / 10), digit_char(n % 10)]
}

/// The four-digit zero-padded rendering of a value in 0..=9999.
pub open spec fn four_digit_chars(n: int) -> Seq<char> {
    seq![digit_char(n / 1000), digit_char((n / 100) % 10), digit_char((n / 10) % 10), digit_char(
        n % 10,
    )]
}

/// The canonical `YYYY-MM-DD HH:MM:SS` rendering of an instant.
pub open spec fn instant_text(i: Instant) -> Seq<char> {
    four_digit_chars(i.year as int) + "-"@ + two_digit_chars(i.month as int) + "-"@
        + two_digit_chars(i.day as int) + " "@ + two_digit_chars(i.hour as int) + ":"@
        + two_digit_chars(i.minute as int) + ":"@ + two_digit_chars(i.second as int)
}

/// Appends the two-digit zero-padded rendering of `n`.
fn push_two(s: &mut String, n: u8)
    requires
        n < 100,
    ensures
        final(s)@ == old(s)@ + two_digit_chars(n as int),
{
    s.append(digit_str(n / 10));
    s.append(digit_str(n % 10));
    proof {
        assert(old(s)@ + seq![digit_char(n as int / 10)] + seq![digit_char(n as int % 10)] =~= old(
            s,
        )@ + two_digit_chars(n as int));
    }
}

/// Appends the four-digit zero-padded rendering of `n`.
fn push_four(s: &mut String, n: u16)
    requires
        n < 10000,
    ensures
        final(s)@ == old(s)@ + four_digit_chars(n as int),
{
    s.append(digit_str((n / 1000) as u8));
    s.append(digit_str((n / 100 % 10) as u8));
    s.append(digit_str((n / 10 % 10) as u8));
    s.append(digit_str((n % 10) as u8));
    proof {
        assert(old(s)@ + seq![digit_char(n as int / 1000)] + seq![
            digit_char((n as int / 100) % 10),
        ] + seq![digit_char((n as int / 10) % 10)] + seq![digit_char(n as int % 10)] =~= old(s)@
            + four_digit_chars(n as int));
    }
}

impl Instant {
    /// Renders the instant in its canonical `YYYY-MM-DD HH:MM:SS` form, the
    /// same text the full date-time production parses.
    pub fn to_text(&self) -> (r: String)
        requires
            self.wf(),
        ensures
            r@ == instant_text(*self),
    {
        let mut s = String::new();
        push_four(&mut s, self.year);
        s.append("-");
        push_two(&mut s, self.month);
        s.append("-");
        push_two(&mut s, self.day);
        s.append(" ");
        push_two(&mut s, self.hour);
        s.append(":");
        push_two(&mut s, self.minute);
        s.append(":");
        push_two(&mut s, self.second);
        proof {
            assert(s@ =~= instant_text(*self));
        }
        s
    }
}

/// Why a time specification could not be parsed: a description of what was
/// expected, the input string unmodified, and the byte offset into it where
/// matching diverged.
#[derive(PartialEq, Debug)]
pub enum IntervalleError {
    ParseError(String, String, usize),
}

impl IntervalleError {
    /// Renders the failure as the caret-annotated diagnostic.
    pub fn render(&self) -> (r: String)
        ensures
            r@ == render_text(
                self->ParseError_0@,
                self->ParseError_1@,
                self->ParseError_2 as nat,
            ),
    {
        match self {
            IntervalleError::ParseError(info, input, offset) => {
                let off: usize = *offset;
                let mut s = String::from_str("\n    |\n");
                if off < 10 {
                    s.append("  ");
                    proof {
                        reveal_strlit("  ");
                        assert(s@ =~= "\n    |\n"@ + pad_chars(off as nat));
                    }
                } else if off < 100 {
                    s.append(" ");
                    proof {
                        reveal_strlit(" ");
                        assert(s@ =~= "\n    |\n"@ + pad_chars(off as nat));
                    }
                } else {
                    proof {
                        assert(s@ =~= "\n    |\n"@ + pad_chars(off as nat));
                    }
                }
                let num = num_string(off);
                s.append(num.as_str());
                s.append(" | ");
                s.append(input.as_str());
                s.append("\n    | ");
                let ghost head: Seq<char> = s@;
                proof {
                    assert(head + spaces(0) =~= head);
                }
                let mut i: usize = 0;
                while i < off
                    invariant
                        i <= off,
                        s@ == head + spaces(i as nat),
                    decreases off - i,
                {
                    s.append(" ");
                    proof {
                        reveal_strlit(" ");
                        assert(spaces(i as nat + 1) =~= spaces(i as nat) + " "@);
                    }
                    i = i + 1;
                }
                s.append("^ ");
                s.append(info.as_str());
                proof {
                    assert(s@ =~= render_text(info@, input@, off as nat));
                }
                s
            },
        }
    }
}

} // verus!
