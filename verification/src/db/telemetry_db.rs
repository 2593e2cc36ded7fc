//! Telemetry storage is split into one database file per month; files older than a year are
//! removed. This module names the files and decides on connections and removals.
use vstd::prelude::*;
use crate::text::{chars_of, concat2, concat3, ends_with, has_prefix, has_suffix, slice_chars, starts_with, str_eq};
use chrono::Datelike;

verus! {

/// The file of the month `month` (written `YYYY_MM`).
pub open spec fn telemetry_file_name_spec(month: Seq<char>) -> Seq<char> {
    "telemetry_"@ + month + ".db"@
}

/// `telemetry_{month}.db`.
pub fn telemetry_file_name(month: &str) -> (r: String)
    ensures
        r@ == telemetry_file_name_spec(month@),
{
    concat3("telemetry_", month, ".db")
}

/// What to do with the telemetry connection before a write or a read.
#[derive(Debug, Clone, Copy, PartialEq, Eq, Structural)]
pub enum ConnectionStep {
    /// The open connection is the current month's: use it.
    Reuse,
    /// Open the current month's file, after removing expired files when the month changed.
    Open { cleanup_first: bool },
}

/// The connection step for the current month `month`, given whether a connection is open and
/// the month it was opened for (empty before the first opening).
pub open spec fn connection_step_spec(has_connection: bool, current_month: Seq<char>, month: Seq<char>) -> ConnectionStep {
    if has_connection && current_month == month {
        ConnectionStep::Reuse
    } else {
        ConnectionStep::Open { cleanup_first: current_month.len() > 0 && current_month != month }
    }
}

pub fn connection_step(has_connection: bool, current_month: &str, month: &str) -> (r: ConnectionStep)
    ensures
        r == connection_step_spec(has_connection, current_month@, month@),
{
    let same = str_eq(current_month, month);
    if has_connection && same {
        ConnectionStep::Reuse
    } else {
        let started = chars_of(current_month).len() > 0;
        ConnectionStep::Open { cleanup_first: started && !same }
    }
}

/// What `chrono::NaiveDate::parse_from_str(s, fmt)` gives, as (year, month, day).
pub uninterp spec fn parsed_date(s: Seq<char>, fmt: Seq<char>) -> Option<(i32, u32, u32)>;

/// Calls `chrono::NaiveDate::parse_from_str` and gives the year, month and day of the date;
/// nothing when the text does not match the format or names no valid date. The result is a
/// function of the text and the format alone.
#[verifier::external_body]
fn parse_date(s: &str, fmt: &str) -> (r: Option<(i32, u32, u32)>)
    ensures
        r == parsed_date(s@, fmt@),
{
    chrono::NaiveDate::parse_from_str(s, fmt).ok().map(|d| (d.year(), d.month(), d.day()))
}

/// What chrono gives for the calendar date `days` days before `date`, as (year, month, day).
pub uninterp spec fn date_days_before(date: (i32, u32, u32), days: u64) -> Option<(i32, u32, u32)>;

/// Calls `chrono::NaiveDate::from_ymd_opt` on `date`, then `checked_sub_days` with `days`,
/// and gives the year, month and day of the result; nothing when `date` is not a valid date
/// or the result is out of chrono's range. The result is a function of its arguments alone.
#[verifier::external_body]
fn days_before(date: (i32, u32, u32), days: u64) -> (r: Option<(i32, u32, u32)>)
    ensures
        r == date_days_before(date, days),
{
    chrono::NaiveDate::from_ymd_opt(date.0, date.1, date.2)
        .and_then(|d| d.checked_sub_days(chrono::Days::new(days)))
        .map(|d| (d.year(), d.month(), d.day()))
}

/// How long telemetry files are kept, in days.
pub const RETENTION_DAYS: u64 = 365;

/// The limit date of the telemetry clean-up on day `today`: a year (`RETENTION_DAYS`) before
/// it; files of months before the limit are removed. Nothing when chrono cannot compute it.
pub fn retention_limit(today: (i32, u32, u32)) -> (r: Option<(i32, u32, u32)>)
    ensures
        r == date_days_before(today, RETENTION_DAYS),
{
    days_before(today, RETENTION_DAYS)
}

/// Calendar order of (year, month, day) dates.
pub open spec fn date_before(a: (i32, u32, u32), b: (i32, u32, u32)) -> bool {
    a.0 < b.0 || (a.0 == b.0 && (a.1 < b.1 || (a.1 == b.1 && a.2 < b.2)))
}

/// The month part of a telemetry file name `telemetry_{part}.db`.
pub open spec fn file_month_part(name: Seq<char>) -> Option<Seq<char>> {
    if has_prefix(name, "telemetry_"@) {
        let rest = name.subrange("telemetry_"@.len() as int, name.len() as int);
        if has_suffix(rest, ".db"@) {
            Some(rest.subrange(0, rest.len() - ".db"@.len()))
        } else {
            None
        }
    } else {
        None
    }
}

/// A file is expired when it is a telemetry file whose month starts before `limit`.
pub open spec fn is_expired_spec(name: Seq<char>, limit: (i32, u32, u32)) -> bool {
    match file_month_part(name) {
        Some(part) => match parsed_date(part + "_01"@, "%Y_%m_%d"@) {
            Some(d) => date_before(d, limit),
            None => false,
        },
        None => false,
    }
}

/// Dates are ordered as on the calendar: by year, then by month, then by day. The order is
/// strict, and of two dates at most one is before the other.
pub proof fn lemma_date_order(a: (i32, u32, u32), b: (i32, u32, u32))
    ensures
        a.0 < b.0 ==> date_before(a, b),
        a.0 > b.0 ==> !date_before(a, b),
        a.0 == b.0 && a.1 < b.1 ==> date_before(a, b),
        a.0 == b.0 && a.1 > b.1 ==> !date_before(a, b),
        a.0 == b.0 && a.1 == b.1 ==> (date_before(a, b) <==> a.2 < b.2),
        !date_before(a, a),
        date_before(a, b) ==> !date_before(b, a),
{
}

/// A telemetry file is removed only when the first day of its month is, on the calendar,
/// before the limit: a file whose month starts on or after the limit is kept.
pub proof fn lemma_expired_before_limit(name: Seq<char>, limit: (i32, u32, u32))
    ensures
        is_expired_spec(name, limit) <==> (file_month_part(name) is Some && ({
            let d = parsed_date(file_month_part(name)->0 + "_01"@, "%Y_%m_%d"@);
            let (y, m, day) = d->0;
            d is Some && (y < limit.0 || (y == limit.0 && m < limit.1) || (y == limit.0 && m == limit.1 && day < limit.2))
        })),
{
}

fn date_before_exec(a: (i32, u32, u32), b: (i32, u32, u32)) -> (r: bool)
    ensures
        r == date_before(a, b),
{
    a.0 < b.0 || (a.0 == b.0 && (a.1 < b.1 || (a.1 == b.1 && a.2 < b.2)))
}

/// The file `name` is a telemetry file of a month that starts before `limit`.
pub fn is_expired_file(name: &str, limit: (i32, u32, u32)) -> (r: bool)
    ensures
        r == is_expired_spec(name@, limit),
{
    proof {
        reveal_strlit("telemetry_");
        reveal_strlit(".db");
    }
    if !starts_with(name, "telemetry_") {
        return false;
    }
    let cs = chars_of(name);
    let rest = slice_chars(&cs, 10, cs.len());
    if !ends_with(rest.as_str(), ".db") {
        return false;
    }
    let rc = chars_of(rest.as_str());
    let part = slice_chars(&rc, 0, rc.len() - 3);
    let dated = concat2(part.as_str(), "_01");
    match parse_date(dated.as_str(), "%Y_%m_%d") {
        Some(d) => date_before_exec(d, limit),
        None => false,
    }
}

} // verus!
