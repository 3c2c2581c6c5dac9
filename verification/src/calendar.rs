//! Calendar facts behind `chrono` and `chrono-tz`: parsing date and time
//! text, the next calendar day, and the instant of a wall-clock time in a
//! named time zone.  An instant is `(seconds since the Unix epoch,
//! nanoseconds within that second)`; a wall-clock time is `(year, month,
//! day, hour, minute, second, nanosecond)`.
use vstd::prelude::*;
use chrono::{Datelike, Timelike};

verus! {

/// Whether `chrono_tz` knows the IANA zone `name`.
pub uninterp spec fn is_tz_name(name: Seq<char>) -> bool;

/// Parses `name` as a `chrono_tz::Tz` (`FromStr`, a lookup in the zone
/// table) and tells whether that succeeded.  The contract names the result
/// by [`is_tz_name`].
#[verifier::external_body]
pub(crate) fn tz_known(name: &str) -> (r: bool)
    ensures
        r == is_tz_name(name@),
{
    name.parse::<chrono_tz::Tz>().is_ok()
}

/// The instant that `chrono` reads from RFC 3339 text, `None` when the
/// text is not RFC 3339.
pub uninterp spec fn rfc3339_instant(s: Seq<char>) -> Option<(i64, u32)>;

/// `chrono::DateTime::parse_from_rfc3339`, its result taken as an instant
/// (`timestamp`, `timestamp_subsec_nanos`).  The contract names the result
/// by [`rfc3339_instant`].
#[verifier::external_body]
pub(crate) fn parse_rfc3339(s: &str) -> (r: Option<(i64, u32)>)
    ensures
        r == rfc3339_instant(s@),
{
    chrono::DateTime::parse_from_rfc3339(s).ok().map(|dt| (dt.timestamp(), dt.timestamp_subsec_nanos()))
}

/// The wall-clock time that `chrono` reads from `s` by the strftime format
/// `fmt`, `None` when it does not parse.
pub uninterp spec fn datetime_fields(s: Seq<char>, fmt: Seq<char>) -> Option<(i32, u32, u32, u32, u32, u32, u32)>;

/// `chrono::NaiveDateTime::parse_from_str`, its result taken apart into
/// its fields.  The contract names the result by [`datetime_fields`].
#[verifier::external_body]
pub(crate) fn parse_naive_datetime(s: &str, fmt: &str) -> (r: Option<(i32, u32, u32, u32, u32, u32, u32)>)
    ensures
        r == datetime_fields(s@, fmt@),
{
    chrono::NaiveDateTime::parse_from_str(s, fmt).ok().map(
        |d| (d.year(), d.month(), d.day(), d.hour(), d.minute(), d.second(), d.nanosecond()),
    )
}

/// The date that `chrono` reads from `s` by the strftime format `fmt`,
/// `None` when it does not parse.
pub uninterp spec fn date_fields(s: Seq<char>, fmt: Seq<char>) -> Option<(i32, u32, u32)>;

/// `chrono::NaiveDate::parse_from_str`, its result taken apart into year,
/// month and day.  The contract names the result by [`date_fields`].
#[verifier::external_body]
pub(crate) fn parse_naive_date(s: &str, fmt: &str) -> (r: Option<(i32, u32, u32)>)
    ensures
        r == date_fields(s@, fmt@),
{
    chrono::NaiveDate::parse_from_str(s, fmt).ok().map(|d| (d.year(), d.month(), d.day()))
}

/// The calendar day after year `y`, month `m`, day `d`, as `chrono` counts
/// it; `None` for an invalid date or the last date `chrono` represents.
pub uninterp spec fn date_successor(y: i32, m: u32, d: u32) -> Option<(i32, u32, u32)>;

/// `chrono::NaiveDate::succ_opt` on the date built by `from_ymd_opt`.  The
/// contract names the result by [`date_successor`].
#[verifier::external_body]
pub(crate) fn next_date(y: i32, m: u32, d: u32) -> (r: Option<(i32, u32, u32)>)
    ensures
        r == date_successor(y, m, d),
{
    chrono::NaiveDate::from_ymd_opt(y, m, d).and_then(|x| x.succ_opt()).map(|n| (n.year(), n.month(), n.day()))
}

/// The instant of the wall-clock time `t` in the zone `tz`: the later one
/// where the clock was set back, `None` where it skips `t`, where `t` is
/// not a valid time or where `tz` is not a known zone.
pub uninterp spec fn local_latest(tz: Seq<char>, t: (i32, u32, u32, u32, u32, u32, u32)) -> Option<(i64, u32)>;

/// Builds the `chrono::NaiveDateTime` of `t` (`from_ymd_opt`,
/// `and_hms_nano_opt`), places it in the `chrono_tz::Tz` named `tz` by
/// `and_local_timezone` and takes `latest()`, as an instant.  The contract
/// names the result by [`local_latest`].
#[verifier::external_body]
pub(crate) fn local_latest_instant(tz: &str, t: (i32, u32, u32, u32, u32, u32, u32)) -> (r: Option<(i64, u32)>)
    ensures
        r == local_latest(tz@, t),
{
    let zone = tz.parse::<chrono_tz::Tz>().ok()?;
    let ndt = chrono::NaiveDate::from_ymd_opt(t.0, t.1, t.2)?.and_hms_nano_opt(t.3, t.4, t.5, t.6)?;
    ndt.and_local_timezone(zone).latest().map(|x| (x.timestamp(), x.timestamp_subsec_nanos()))
}

} // verus!
