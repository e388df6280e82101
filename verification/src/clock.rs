//! Calendar reading of Unix timestamps. The retention policy compares files
//! by the (year, month) of their last-modified instant, in UTC; the conversion
//! from a timestamp to that pair is the calendar library's.

use vstd::prelude::*;
use crate::retention::FileMonth;

verus! {

/// The calendar year, in UTC, of the instant `secs` seconds after the Unix
/// epoch, as the calendar library computes it.
pub uninterp spec fn utc_year(secs: i64) -> int;

/// The calendar month (1 through 12), in UTC, of the instant `secs` seconds
/// after the Unix epoch, as the calendar library computes it.
pub uninterp spec fn utc_month(secs: i64) -> int;

/// The latest Unix timestamp whose date the calendar library represents:
/// 9999-12-31T23:59:59 UTC.
pub const MAX_CALENDAR_SECS: i64 = 253402300799;

/// Relies on `time::OffsetDateTime::from_unix_timestamp`, which interprets a
/// Unix timestamp as a UTC date and errors only outside the library's
/// representable year range (every instant from 1970 through 9999 is inside
/// it), and on `OffsetDateTime::year` and `OffsetDateTime::month`
/// (`time::Month` is January = 1 through December = 12).
#[verifier::external_body]
pub fn utc_file_month(secs: i64) -> (r: Option<FileMonth>)
    ensures
        r matches Some(fm) ==> fm.year as int == utc_year(secs) && fm.month as int == utc_month(
            secs,
        ) && 1 <= fm.month <= 12,
        0 <= secs <= MAX_CALENDAR_SECS ==> r is Some,
{
    match time::OffsetDateTime::from_unix_timestamp(secs) {
        Ok(dt) => Some(FileMonth { year: dt.year(), month: dt.month() as u8 }),
        Err(_) => None,
    }
}

} // verus!
