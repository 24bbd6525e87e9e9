//! Parsing of compact, human-typed time specifications — `today`,
//! `yesterday`, `15:28`, `2024-08-08 14:10:11`, `-15:28` — into a concrete
//! timestamp together with a directional qualifier (an exact point, a lower
//! bound, or an upper bound).
use vstd::prelude::*;
use vstd::string::StringExecFns;
use vstd::string::StringSliceAdditionalSpecFns;

pub mod calendar;
mod clock;
pub mod diag;
pub mod grammar;
pub mod laws;

pub use calendar::Instant;
pub use diag::IntervalleError;

use diag::kind_str;
use diag::kind_text;
use grammar::spec_body_at;
use grammar::FailKind;

verus! {

/// The result of a successful parse: the instant the specification denotes,
/// qualified as a lower bound (`After`, leading `+`), an upper bound
/// (`Before`, leading `-`), or an exact point (no leading modifier).
#[derive(PartialEq, Eq, Structural, Clone, Copy, Debug)]
pub enum TimeSpec {
    After(Instant),
    Before(Instant),
    Point(Instant),
}

/// How many bytes the optional leading modifier occupies: one for `+` or
/// `-` as the very first byte, none otherwise.
pub open spec fn modifier_len(t: Seq<u8>) -> int {
    if t.len() > 0 && (t[0] == 43 || t[0] == 45) {
        1
    } else {
        0
    }
}

/// What parsing the byte sequence `t` against the given anchor yields: the
/// `TimeSpec` it denotes, or the first failure and the byte offset where
/// matching diverged. A leading `+` makes the result `After`, a leading `-`
/// makes it `Before`, and the rest of the input is read by the grammar of
/// `spec_body_at`.
pub open spec fn spec_parse(t: Seq<u8>, anchor: Instant) -> Result<TimeSpec, (FailKind, int)> {
    match spec_body_at(t, modifier_len(t), anchor) {
        Ok(i) => Ok(
            if t.len() > 0 && t[0] == 43 {
                TimeSpec::After(i)
            } else if t.len() > 0 && t[0] == 45 {
                TimeSpec::Before(i)
            } else {
                TimeSpec::Point(i)
            },
        ),
        Err(e) => Err(e),
    }
}

impl TimeSpec {
    /// The wrapped instant names a real date and a legal time of day.
    pub open spec fn wf(self) -> bool {
        match self {
            TimeSpec::After(i) => i.wf(),
            TimeSpec::Before(i) => i.wf(),
            TimeSpec::Point(i) => i.wf(),
        }
    }
}

/// The parse result `r` is what `spec_parse` says of the input with byte
/// sequence `t` and text `input`, resolved against `anchor`: the denoted
/// `TimeSpec` on success, and on failure the matching description, the
/// input unmodified, and the byte offset of divergence.
pub open spec fn parse_outcome_matches(
    r: Result<TimeSpec, IntervalleError>,
    input: Seq<char>,
    t: Seq<u8>,
    anchor: Instant,
) -> bool {
    match spec_parse(t, anchor) {
        Ok(ts) => r == Ok::<TimeSpec, IntervalleError>(ts),
        Err(e) => r matches Err(IntervalleError::ParseError(info, inp, off)) && info@ == kind_text(
            e.0,
        ) && inp@ == input && off as int == e.1,
    }
}

impl TimeSpec {
    /// Parses a time specification against the given anchor instant, which
    /// resolves `today`, `yesterday`, `tomorrow` and bare times. All
    /// rejections are reported through the failure value; nothing panics.
    pub fn parse_with_anchor(timespec: &str, anchor: Instant) -> (r: Result<
        TimeSpec,
        IntervalleError,
    >)
        requires
            anchor.wf(),
        ensures
            parse_outcome_matches(r, timespec@, timespec.spec_bytes(), anchor),
            r matches Ok(ts) ==> ts.wf(),
    {
        let v: Vec<u8> = timespec.as_bytes_vec();
        let p: usize = if v.len() > 0 && (v[0] == 43 || v[0] == 45) {
            1
        } else {
            0
        };
        match grammar::parse_body(&v, p, &anchor) {
            Ok(i) => {
                if p == 1 && v[0] == 43 {
                    Ok(TimeSpec::After(i))
                } else if p == 1 {
                    Ok(TimeSpec::Before(i))
                } else {
                    Ok(TimeSpec::Point(i))
                }
            },
            Err(f) => Err(
                IntervalleError::ParseError(
                    String::from_str(kind_str(f.kind)),
                    String::from_str(timespec),
                    f.offset,
                ),
            ),
        }
    }

    /// Parses a time specification with the anchor resolved to the current
    /// civil time in the system's local timezone (UTC when that cannot be
    /// determined). The outcome is `spec_parse` against that freshly read,
    /// well-formed anchor.
    pub fn parse(timespec: &str) -> (r: Result<TimeSpec, IntervalleError>)
        ensures
            exists|a: Instant|
                a.wf() && #[trigger] parse_outcome_matches(
                    r,
                    timespec@,
                    timespec.spec_bytes(),
                    a,
                ),
            r matches Ok(ts) ==> ts.wf(),
    {
        let offset_seconds = match clock::local_offset_seconds() {
            Some(s) => s,
            None => 0,
        };
        let (y, mo, d, h, mi, s) = clock::now_civil(offset_seconds);
        let anchor = if y >= 0 {
            match Instant::new(y as u16, mo, d, h, mi, s) {
                Some(a) => a,
                None => Instant { year: 1970, month: 1, day: 1, hour: 0, minute: 0, second: 0 },
            }
        } else {
            Instant { year: 1970, month: 1, day: 1, hour: 0, minute: 0, second: 0 }
        };
        let r = Self::parse_with_anchor(timespec, anchor);
        proof {
            assert(parse_outcome_matches(r, timespec@, timespec.spec_bytes(), anchor));
        }
        r
    }
}

} // verus!
