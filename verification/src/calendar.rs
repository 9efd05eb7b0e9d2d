//! The calendar library behind the parser. Calendar validity, the parsing
//! and rendering of the standard textual layouts, and the reading of the
//! process clock are delegated to chrono; each call stands behind one
//! trusted wrapper here, and every other part of the crate is verified
//! against the contracts these wrappers state.
//!
//! Results that chrono computes from its arguments alone are given names
//! (uninterpreted spec functions); the contracts of the verified callers
//! are exact over those names.

use vstd::prelude::*;

use crate::{Clock, NaiveStamp, Timestamp};
use chrono::{Datelike, Timelike};

verus! {

/// What `chrono::DateTime::<FixedOffset>::parse_from_str` returns for text
/// `s` under format `fmt`, reduced to the fields of [`Timestamp`].
pub uninterp spec fn datetime_fmt_parse(s: Seq<char>, fmt: Seq<char>) -> Option<Timestamp>;

/// Relies on chrono's `DateTime::<FixedOffset>::parse_from_str`: the result
/// depends on the text and the format alone. The parsed value is returned
/// as its UTC seconds, sub-second nanoseconds, and offset in seconds.
#[verifier::external_body]
pub(crate) fn parse_datetime_fmt(s: &Vec<char>, fmt: &str) -> (r: Option<Timestamp>)
    ensures
        r == datetime_fmt_parse(s@, fmt@),
{
    let text: String = s.iter().collect();
    match chrono::DateTime::parse_from_str(&text, fmt) {
        Ok(dt) => Some(
            Timestamp {
                secs: dt.timestamp(),
                nanos: dt.timestamp_subsec_nanos(),
                offset_secs: dt.offset().local_minus_utc(),
            },
        ),
        Err(_) => None,
    }
}

/// What `chrono::DateTime::parse_from_rfc3339` returns for text `s`.
pub uninterp spec fn rfc3339_parse(s: Seq<char>) -> Option<Timestamp>;

/// Relies on chrono's `DateTime::parse_from_rfc3339`: the result depends on
/// the text alone.
#[verifier::external_body]
pub(crate) fn parse_rfc3339(s: &Vec<char>) -> (r: Option<Timestamp>)
    ensures
        r == rfc3339_parse(s@),
{
    let text: String = s.iter().collect();
    match chrono::DateTime::parse_from_rfc3339(&text) {
        Ok(dt) => Some(
            Timestamp {
                secs: dt.timestamp(),
                nanos: dt.timestamp_subsec_nanos(),
                offset_secs: dt.offset().local_minus_utc(),
            },
        ),
        Err(_) => None,
    }
}

/// What `chrono::DateTime::parse_from_rfc2822` returns for text `s`.
pub uninterp spec fn rfc2822_parse(s: Seq<char>) -> Option<Timestamp>;

/// Relies on chrono's `DateTime::parse_from_rfc2822`: the result depends on
/// the text alone. This is also where timezone abbreviations such as `PST`
/// are resolved to numeric offsets, per RFC 2822's obsolete zone names.
#[verifier::external_body]
pub(crate) fn parse_rfc2822(s: &Vec<char>) -> (r: Option<Timestamp>)
    ensures
        r == rfc2822_parse(s@),
{
    let text: String = s.iter().collect();
    match chrono::DateTime::parse_from_rfc2822(&text) {
        Ok(dt) => Some(
            Timestamp {
                secs: dt.timestamp(),
                nanos: dt.timestamp_subsec_nanos(),
                offset_secs: dt.offset().local_minus_utc(),
            },
        ),
        Err(_) => None,
    }
}

/// What `chrono::NaiveDateTime::parse_from_str` returns for text `s` under
/// format `fmt`, reduced to the fields of [`NaiveStamp`].
pub uninterp spec fn naive_fmt_parse(s: Seq<char>, fmt: Seq<char>) -> Option<NaiveStamp>;

/// Relies on chrono's `NaiveDateTime::parse_from_str`: the result depends
/// on the text and the format alone.
#[verifier::external_body]
pub(crate) fn parse_naive_fmt(s: &Vec<char>, fmt: &str) -> (r: Option<NaiveStamp>)
    ensures
        r == naive_fmt_parse(s@, fmt@),
{
    let text: String = s.iter().collect();
    match chrono::NaiveDateTime::parse_from_str(&text, fmt) {
        Ok(ndt) => Some(
            NaiveStamp {
                secs: ndt.and_utc().timestamp(),
                nanos: ndt.and_utc().timestamp_subsec_nanos(),
            },
        ),
        Err(_) => None,
    }
}

/// What `chrono::NaiveDate::parse_from_str` returns for text `s` under
/// format `fmt`, as the seconds of that date's midnight.
pub uninterp spec fn date_fmt_parse(s: Seq<char>, fmt: Seq<char>) -> Option<i64>;

/// Relies on chrono's `NaiveDate::parse_from_str`: the result depends on
/// the text and the format alone; the parsed date is returned at midnight.
#[verifier::external_body]
pub(crate) fn parse_date_fmt(s: &Vec<char>, fmt: &str) -> (r: Option<i64>)
    ensures
        r == date_fmt_parse(s@, fmt@),
{
    let text: String = s.iter().collect();
    match chrono::NaiveDate::parse_from_str(&text, fmt) {
        Ok(d) => d.and_hms_opt(0, 0, 0).map(|ndt| ndt.and_utc().timestamp()),
        Err(_) => None,
    }
}

/// What `chrono::NaiveTime::parse_from_str` returns for text `s` under
/// format `fmt`: seconds from midnight and the nanosecond part (which can
/// exceed one billion on a leap second).
pub uninterp spec fn time_fmt_parse(s: Seq<char>, fmt: Seq<char>) -> Option<(u32, u32)>;

/// Relies on chrono's `NaiveTime::parse_from_str`: the result depends on
/// the text and the format alone.
#[verifier::external_body]
pub(crate) fn parse_time_fmt(s: &Vec<char>, fmt: &str) -> (r: Option<(u32, u32)>)
    ensures
        r == time_fmt_parse(s@, fmt@),
{
    let text: String = s.iter().collect();
    match chrono::NaiveTime::parse_from_str(&text, fmt) {
        Ok(t) => Some((t.num_seconds_from_midnight(), t.nanosecond())),
        Err(_) => None,
    }
}

/// Whether `chrono::DateTime::from_timestamp` accepts this pair: the
/// seconds value lies in the range of representable dates and the
/// nanosecond part is valid.
pub uninterp spec fn epoch_in_range(secs: i64, nanos: u32) -> bool;

/// The timestamp the epoch interpreter yields: the pair itself at offset
/// zero when the calendar library can represent it.
pub open spec fn epoch_timestamp(secs: i64, nanos: u32) -> Option<Timestamp> {
    if epoch_in_range(secs, nanos) {
        Some(Timestamp { secs, nanos, offset_secs: 0 })
    } else {
        None
    }
}

/// Relies on chrono's `DateTime::from_timestamp`: `Some` exactly on a
/// representable pair, and documented to round-trip with `timestamp` and
/// `timestamp_subsec_nanos`.
#[verifier::external_body]
pub(crate) fn epoch_to_timestamp(secs: i64, nanos: u32) -> (r: Option<Timestamp>)
    ensures
        r == epoch_timestamp(secs, nanos),
{
    chrono::DateTime::from_timestamp(secs, nanos).map(
        |_| Timestamp { secs, nanos, offset_secs: 0 },
    )
}

/// What constructing a naive date and time from components yields: the
/// seconds of `(y, m, d)` at `tsecs` seconds after midnight, or `None` on
/// invalid components.
pub uninterp spec fn ymd_time_secs(y: i32, m: u32, d: u32, tsecs: u32) -> Option<i64>;

/// Relies on chrono's `NaiveDate::from_ymd_opt` and
/// `NaiveTime::from_num_seconds_from_midnight_opt`: calendar construction
/// from components, `None` exactly on out-of-range components.
#[verifier::external_body]
pub(crate) fn naive_of_ymd_time(y: i32, m: u32, d: u32, tsecs: u32) -> (r: Option<i64>)
    ensures
        r == ymd_time_secs(y, m, d, tsecs),
{
    let date = chrono::NaiveDate::from_ymd_opt(y, m, d)?;
    let time = chrono::NaiveTime::from_num_seconds_from_midnight_opt(tsecs, 0)?;
    Some(date.and_time(time).and_utc().timestamp())
}

/// What formatting the naive date and time at `secs` with
/// `"%a, %d %b %Y %H:%M:%S"` yields: an RFC 2822 date-time without its
/// zone, such as `Mon, 06 Jul 1970 15:30:00`.
pub uninterp spec fn rfc2822_prefix(secs: i64) -> Seq<char>;

/// Relies on chrono's `NaiveDateTime::format` under the fixed format
/// `"%a, %d %b %Y %H:%M:%S"`: the text depends on the instant alone.
#[verifier::external_body]
pub(crate) fn format_rfc2822_prefix(secs: i64) -> (r: Option<String>)
    ensures
        r is Some <==> epoch_in_range(secs, 0),
        r matches Some(t) ==> t@ == rfc2822_prefix(secs),
{
    chrono::DateTime::from_timestamp(secs, 0).map(
        |dt| dt.naive_utc().format("%a, %d %b %Y %H:%M:%S").to_string(),
    )
}

/// What `chrono::DateTime::<FixedOffset>::to_rfc3339` yields for the
/// timestamp with these fields.
pub uninterp spec fn rfc3339_text(secs: i64, nanos: u32, offset_secs: i32) -> Seq<char>;

/// Relies on chrono's `FixedOffset::east_opt` (`Some` exactly for offsets
/// strictly under one day), `DateTime::from_timestamp` and
/// `DateTime::to_rfc3339`: the text depends on the three fields alone.
#[verifier::external_body]
pub(crate) fn format_rfc3339(secs: i64, nanos: u32, offset_secs: i32) -> (r: Option<String>)
    ensures
        r is Some <==> (epoch_in_range(secs, nanos) && -86400 < offset_secs < 86400),
        r matches Some(t) ==> t@ == rfc3339_text(secs, nanos, offset_secs),
{
    let off = chrono::FixedOffset::east_opt(offset_secs)?;
    let dt = chrono::DateTime::from_timestamp(secs, nanos)?;
    Some(dt.with_timezone(&off).to_rfc3339())
}

/// Relies on chrono's `Local::now` and the `Datelike` accessors: a clock
/// reading. Nothing is assumed of the result beyond the ranges every
/// reading satisfies: the offset of a `FixedOffset` is under a day in
/// magnitude, months are `1..=12` and days `1..=31`.
#[verifier::external_body]
pub(crate) fn read_local_clock() -> (c: Clock)
    ensures
        c.wf(),
{
    let now = chrono::Local::now();
    Clock {
        offset_secs: now.offset().local_minus_utc(),
        year: now.year(),
        month: now.month(),
        day: now.day(),
    }
}

} // verus!
