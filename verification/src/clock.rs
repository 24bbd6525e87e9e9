//! The local-time collaborators: reading the system timezone's offset and
//! the current civil time. Everything here is a thin shim over outside
//! crates; the parser itself only ever consumes the resolved anchor.
use vstd::prelude::*;

verus! {

/// Relies on tz::TimeZone::local and TimeZone::find_current_local_time_type:
/// the UT offset, in seconds, of the system's current local time type, or
/// `None` when the local timezone cannot be determined.
#[verifier::external_body]
pub(crate) fn local_offset_seconds() -> Option<i32> {
    match tz::TimeZone::local() {
        Ok(z) => match z.find_current_local_time_type() {
            Ok(t) => Some(t.ut_offset()),
            Err(_) => None,
        },
        Err(_) => None,
    }
}

/// Relies on time::OffsetDateTime::now_utc and checked_to_offset: the
/// current civil year, month, day, hour, minute and second at the given UT
/// offset in seconds (at UTC when the offset is not a legal time::UtcOffset
/// or shifting would leave time's supported range). The time crate keeps
/// the year within ±9999 and every other field within its calendar range.
#[verifier::external_body]
pub(crate) fn now_civil(offset_seconds: i32) -> (r: (i32, u8, u8, u8, u8, u8))
    ensures
        -9999 <= r.0 <= 9999,
        1 <= r.1 <= 12,
        1 <= r.2 <= 31,
        r.3 < 24,
        r.4 < 60,
        r.5 < 60,
{
    let utc = time::OffsetDateTime::now_utc();
    let now = match time::UtcOffset::from_whole_seconds(offset_seconds) {
        Ok(off) => match utc.checked_to_offset(off) {
            Some(shifted) => shifted,
            None => utc,
        },
        Err(_) => utc,
    };
    (now.year(), u8::from(now.month()), now.day(), now.hour(), now.minute(), now.second())
}

} // verus!
