//! Custom per-column format strings, rendered and parsed by the `chrono`
//! crate.
//!
//! A column's configuration may override a cell type's default format with an
//! arbitrary strftime-style format string. What such a rendering or parse
//! yields is a function of the value, the text and the format string alone,
//! but takes pages to state; each call is therefore named by an
//! uninterpreted spec function and made behind a trusted wrapper, and the
//! validation that brings a parse result back into this library's value
//! model is ordinary verified code ([`date_from_parts`] and friends).

use crate::cell_text::{spec_days_in_month, CalendarDate, CellTextCodec, ClockTime, Timestamp, UtcTimestamp};
use chrono::{Datelike, Timelike};
use core::fmt::Write;
use vstd::prelude::*;

verus! {

/// Year, month and day of a parsed date.
pub type DateParts = (int, int, int);

/// Hour, minute and second of a parsed time.
pub type TimeParts = (int, int, int);

/// Date and time of a parsed timestamp.
pub type DateTimeParts = (DateParts, TimeParts);

/// What `chrono::NaiveDate::format` renders for a date and a format string;
/// `None` when the format string is invalid for dates.
pub uninterp spec fn strftime_date(y: int, m: int, d: int, fmt: Seq<char>) -> Option<Seq<char>>;

/// What `chrono::NaiveDate::parse_from_str` yields for a text and a format
/// string, as the parsed date's year, month and day; `None` on a failed
/// parse.
pub uninterp spec fn strptime_date(text: Seq<char>, fmt: Seq<char>) -> Option<DateParts>;

/// What `chrono::NaiveTime::format` renders for a time and a format string;
/// `None` when the format string is invalid for times.
pub uninterp spec fn strftime_time(h: int, mi: int, s: int, fmt: Seq<char>) -> Option<Seq<char>>;

/// What `chrono::NaiveTime::parse_from_str` yields for a text and a format
/// string, as whole hour, minute and second; `None` on a failed parse.
pub uninterp spec fn strptime_time(text: Seq<char>, fmt: Seq<char>) -> Option<TimeParts>;

/// What `chrono::NaiveDateTime::format` renders for a timestamp and a format
/// string; `None` when the format string is invalid for timestamps.
pub uninterp spec fn strftime_datetime(p: DateTimeParts, fmt: Seq<char>) -> Option<Seq<char>>;

/// What `chrono::NaiveDateTime::parse_from_str` yields for a text and a
/// format string; `None` on a failed parse.
pub uninterp spec fn strptime_datetime(text: Seq<char>, fmt: Seq<char>) -> Option<DateTimeParts>;

/// What `chrono::DateTime::<Utc>::format` renders for a UTC timestamp and a
/// format string; `None` when the format string is invalid.
pub uninterp spec fn strftime_utc(p: DateTimeParts, fmt: Seq<char>) -> Option<Seq<char>>;

/// What `chrono::DateTime::<FixedOffset>::parse_from_str` yields for a text
/// and a format string, converted to UTC; `None` on a failed parse.
pub uninterp spec fn strptime_utc(text: Seq<char>, fmt: Seq<char>) -> Option<DateTimeParts>;

/// The calendar date these parts denote, if they lie in this library's date
/// model: a year within `0..=9999` and a day valid for the month.
pub open spec fn spec_date_from_parts(y: int, m: int, d: int) -> Option<CalendarDate> {
    if 0 <= y <= 9999 && 1 <= m <= 12 && 1 <= d && d <= spec_days_in_month(y, m) {
        Some(CalendarDate { year: y as u16, month: m as u8, day: d as u8 })
    } else {
        None
    }
}

/// The time of day these parts denote, if they lie in this library's
/// whole-second time model.
pub open spec fn spec_time_from_parts(h: int, mi: int, s: int) -> Option<ClockTime> {
    if 0 <= h < 24 && 0 <= mi < 60 && 0 <= s < 60 {
        Some(ClockTime { hour: h as u8, minute: mi as u8, second: s as u8 })
    } else {
        None
    }
}

/// The timestamp these parts denote, if both halves lie in this library's
/// value model.
pub open spec fn spec_timestamp_from_parts(p: DateTimeParts) -> Option<Timestamp> {
    match (spec_date_from_parts(p.0.0, p.0.1, p.0.2), spec_time_from_parts(p.1.0, p.1.1, p.1.2)) {
        (Some(date), Some(time)) => Some(Timestamp { date, time }),
        _ => None,
    }
}

/// Validate a parsed date against this library's date model.
pub fn date_from_parts(y: i32, m: u32, d: u32) -> (r: Option<CalendarDate>)
    ensures
        r == spec_date_from_parts(y as int, m as int, d as int),
        r matches Some(v) ==> v.wf(),
{
    if 0 <= y && y <= 9999 && 1 <= m && m <= 12 && 1 <= d && d <= crate::cell_text::days_in_month(
        y as u16,
        m as u8,
    ) as u32 {
        Some(CalendarDate { year: y as u16, month: m as u8, day: d as u8 })
    } else {
        None
    }
}

/// Validate a parsed time against this library's whole-second time model.
pub fn time_from_parts(h: u32, mi: u32, s: u32) -> (r: Option<ClockTime>)
    ensures
        r == spec_time_from_parts(h as int, mi as int, s as int),
        r matches Some(v) ==> v.wf(),
{
    if h < 24 && mi < 60 && s < 60 {
        Some(ClockTime { hour: h as u8, minute: mi as u8, second: s as u8 })
    } else {
        None
    }
}

/// Validate a parsed timestamp against this library's value model.
pub fn timestamp_from_parts(y: i32, m: u32, d: u32, h: u32, mi: u32, s: u32) -> (r: Option<
    Timestamp,
>)
    ensures
        r == spec_timestamp_from_parts(
            ((y as int, m as int, d as int), (h as int, mi as int, s as int)),
        ),
        r matches Some(v) ==> v.wf(),
{
    match (date_from_parts(y, m, d), time_from_parts(h, mi, s)) {
        (Some(date), Some(time)) => Some(Timestamp { date, time }),
        _ => None,
    }
}

/// Relies on `chrono::NaiveDate::format`: the rendering depends on the date
/// value and the format string alone; an invalid format string makes the
/// deferred formatter report an error instead of text.
#[verifier::external_body]
pub(crate) fn chrono_format_date(date: &CalendarDate, fmt: &str) -> (r: Option<String>)
    requires
        date.wf(),
    ensures
        r matches Some(t) ==> strftime_date(
            date.year as int,
            date.month as int,
            date.day as int,
            fmt@,
        ) == Some(t@),
        r is None ==> strftime_date(date.year as int, date.month as int, date.day as int, fmt@)
            is None,
{
    let d = chrono::NaiveDate::from_ymd_opt(date.year as i32, date.month as u32, date.day as u32)?;
    let mut out = String::new();
    match write!(out, "{}", d.format(fmt)) {
        Ok(()) => Some(out),
        Err(_) => None,
    }
}

/// Relies on `chrono::NaiveDate::parse_from_str`: deterministic in the text
/// and the format string; yields the parsed date's year, month and day.
#[verifier::external_body]
pub(crate) fn chrono_parse_date(text: &str, fmt: &str) -> (r: Option<(i32, u32, u32)>)
    ensures
        r matches Some(p) ==> strptime_date(text@, fmt@) == Some(
            (p.0 as int, p.1 as int, p.2 as int),
        ),
        r is None ==> strptime_date(text@, fmt@) is None,
{
    match chrono::NaiveDate::parse_from_str(text, fmt) {
        Ok(d) => Some((d.year(), d.month(), d.day())),
        Err(_) => None,
    }
}

/// Relies on `chrono::NaiveTime::format`: the rendering depends on the time
/// value and the format string alone.
#[verifier::external_body]
pub(crate) fn chrono_format_time(time: &ClockTime, fmt: &str) -> (r: Option<String>)
    requires
        time.wf(),
    ensures
        r matches Some(t) ==> strftime_time(
            time.hour as int,
            time.minute as int,
            time.second as int,
            fmt@,
        ) == Some(t@),
        r is None ==> strftime_time(time.hour as int, time.minute as int, time.second as int, fmt@)
            is None,
{
    let t = chrono::NaiveTime::from_hms_opt(time.hour as u32, time.minute as u32, time.second as u32)?;
    let mut out = String::new();
    match write!(out, "{}", t.format(fmt)) {
        Ok(()) => Some(out),
        Err(_) => None,
    }
}

/// Relies on `chrono::NaiveTime::parse_from_str`: deterministic in the text
/// and the format string; yields the parsed whole hour, minute and second.
#[verifier::external_body]
pub(crate) fn chrono_parse_time(text: &str, fmt: &str) -> (r: Option<(u32, u32, u32)>)
    ensures
        r matches Some(p) ==> strptime_time(text@, fmt@) == Some(
            (p.0 as int, p.1 as int, p.2 as int),
        ),
        r is None ==> strptime_time(text@, fmt@) is None,
{
    match chrono::NaiveTime::parse_from_str(text, fmt) {
        Ok(t) => Some((t.hour(), t.minute(), t.second())),
        Err(_) => None,
    }
}

/// Relies on `chrono::NaiveDateTime::format`: the rendering depends on the
/// timestamp value and the format string alone.
#[verifier::external_body]
pub(crate) fn chrono_format_datetime(ts: &Timestamp, fmt: &str) -> (r: Option<String>)
    requires
        ts.wf(),
    ensures
        r matches Some(t) ==> strftime_datetime(
            (
                (ts.date.year as int, ts.date.month as int, ts.date.day as int),
                (ts.time.hour as int, ts.time.minute as int, ts.time.second as int),
            ),
            fmt@,
        ) == Some(t@),
        r is None ==> strftime_datetime(
            (
                (ts.date.year as int, ts.date.month as int, ts.date.day as int),
                (ts.time.hour as int, ts.time.minute as int, ts.time.second as int),
            ),
            fmt@,
        ) is None,
{
    let (d, t) = (ts.date, ts.time);
    let nd = chrono::NaiveDate::from_ymd_opt(d.year as i32, d.month as u32, d.day as u32)?;
    let dt = nd.and_hms_opt(t.hour as u32, t.minute as u32, t.second as u32)?;
    let mut out = String::new();
    match write!(out, "{}", dt.format(fmt)) {
        Ok(()) => Some(out),
        Err(_) => None,
    }
}

/// Relies on `chrono::NaiveDateTime::parse_from_str`: deterministic in the
/// text and the format string; yields the parsed date and whole-second time.
#[verifier::external_body]
pub(crate) fn chrono_parse_datetime(text: &str, fmt: &str) -> (r: Option<
    (i32, u32, u32, u32, u32, u32),
>)
    ensures
        r matches Some(p) ==> strptime_datetime(text@, fmt@) == Some(
            ((p.0 as int, p.1 as int, p.2 as int), (p.3 as int, p.4 as int, p.5 as int)),
        ),
        r is None ==> strptime_datetime(text@, fmt@) is None,
{
    match chrono::NaiveDateTime::parse_from_str(text, fmt) {
        Ok(dt) => Some((dt.year(), dt.month(), dt.day(), dt.hour(), dt.minute(), dt.second())),
        Err(_) => None,
    }
}

/// Relies on `chrono::DateTime::<Utc>::format`: the rendering depends on the
/// UTC timestamp value and the format string alone.
#[verifier::external_body]
pub(crate) fn chrono_format_utc(ts: &UtcTimestamp, fmt: &str) -> (r: Option<String>)
    requires
        ts.wf(),
    ensures
        r matches Some(t) ==> strftime_utc(
            (
                (
                    ts.datetime.date.year as int,
                    ts.datetime.date.month as int,
                    ts.datetime.date.day as int,
                ),
                (
                    ts.datetime.time.hour as int,
                    ts.datetime.time.minute as int,
                    ts.datetime.time.second as int,
                ),
            ),
            fmt@,
        ) == Some(t@),
        r is None ==> strftime_utc(
            (
                (
                    ts.datetime.date.year as int,
                    ts.datetime.date.month as int,
                    ts.datetime.date.day as int,
                ),
                (
                    ts.datetime.time.hour as int,
                    ts.datetime.time.minute as int,
                    ts.datetime.time.second as int,
                ),
            ),
            fmt@,
        ) is None,
{
    let (d, t) = (ts.datetime.date, ts.datetime.time);
    let nd = chrono::NaiveDate::from_ymd_opt(d.year as i32, d.month as u32, d.day as u32)?;
    let ndt = nd.and_hms_opt(t.hour as u32, t.minute as u32, t.second as u32)?;
    let dt = chrono::DateTime::<chrono::Utc>::from_naive_utc_and_offset(ndt, chrono::Utc);
    let mut out = String::new();
    match write!(out, "{}", dt.format(fmt)) {
        Ok(()) => Some(out),
        Err(_) => None,
    }
}

/// Relies on `chrono::DateTime::<FixedOffset>::parse_from_str`: deterministic
/// in the text and the format string; yields the parsed instant's date and
/// whole-second time after conversion to UTC.
#[verifier::external_body]
pub(crate) fn chrono_parse_utc(text: &str, fmt: &str) -> (r: Option<
    (i32, u32, u32, u32, u32, u32),
>)
    ensures
        r matches Some(p) ==> strptime_utc(text@, fmt@) == Some(
            ((p.0 as int, p.1 as int, p.2 as int), (p.3 as int, p.4 as int, p.5 as int)),
        ),
        r is None ==> strptime_utc(text@, fmt@) is None,
{
    match chrono::DateTime::<chrono::FixedOffset>::parse_from_str(text, fmt) {
        Ok(dt) => {
            let u = dt.naive_utc();
            Some((u.year(), u.month(), u.day(), u.hour(), u.minute(), u.second()))
        },
        Err(_) => None,
    }
}

} // verus!
