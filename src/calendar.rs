use chrono::{Datelike, TimeZone};
use vstd::prelude::*;

verus! {

/// UTC seconds since the epoch of midnight (00:00:00 UTC) of year `y`,
/// month `m`, day `d`; `None` where chrono has no such date.
pub uninterp spec fn midnight_utc(y: i32, m: u32, d: u32) -> Option<i64>;

/// The calendar year of the UTC instant `t`; `None` where chrono has no such instant.
pub uninterp spec fn utc_year_of(t: i64) -> Option<i32>;

/// The ISO-8601 week number of the wall-clock time `t` (seconds since
/// 1970-01-01T00:00:00 of the same clock); `None` where chrono has no such instant.
pub uninterp spec fn iso_week_of(t: i64) -> Option<u32>;

/// Relies on chrono's `Utc.with_ymd_and_hms(y, m, d, 0, 0, 0)` and `DateTime::timestamp`:
/// the instant of midnight UTC of a calendar date.
#[verifier::external_body]
pub(crate) fn midnight_timestamp(y: i32, m: u32, d: u32) -> (r: Option<i64>)
    ensures
        r == midnight_utc(y, m, d),
{
    chrono::Utc.with_ymd_and_hms(y, m, d, 0, 0, 0).single().map(|t| t.timestamp())
}

/// Relies on chrono's `DateTime::from_timestamp` and `Datelike::year`: the year of a UTC instant.
#[verifier::external_body]
pub(crate) fn year_of_timestamp(t: i64) -> (r: Option<i32>)
    ensures
        r == utc_year_of(t),
{
    chrono::DateTime::from_timestamp(t, 0).map(|d| d.year())
}

/// Relies on chrono's `DateTime::from_timestamp` and `IsoWeek::week`: the ISO week
/// number, which chrono documents to range from 1 to 53.
#[verifier::external_body]
pub(crate) fn iso_week_number(t: i64) -> (r: Option<u32>)
    ensures
        r == iso_week_of(t),
        r matches Some(w) ==> 1 <= w <= 53,
{
    chrono::DateTime::from_timestamp(t, 0).map(|d| d.iso_week().week())
}

/// Relies on chrono's `FixedOffset::east_opt` and `FixedOffset::local_minus_utc`: an
/// offset exists exactly when it lies strictly between -86400 and 86400 seconds.
#[verifier::external_body]
pub(crate) fn fixed_offset(secs: i32) -> (r: Option<i32>)
    ensures
        r == (if -86400 < secs < 86400 { Some(secs) } else { None::<i32> }),
{
    chrono::FixedOffset::east_opt(secs).map(|o| o.local_minus_utc())
}

} // verus!
