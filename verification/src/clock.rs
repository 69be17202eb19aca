//! The clock behind a template's `datetime.today()`.

use vstd::prelude::*;

use chrono::{Datelike, Timelike};

verus! {

/// Clock source for the template's `datetime.today()`.
///
/// The default ([`SystemLocal`](Clock::SystemLocal)) uses the host's local
/// time. Use [`Fixed`](Clock::Fixed) (or [`Utc`](Clock::Utc)) for
/// deterministic, host-independent output.
#[derive(Debug, Clone, Copy, PartialEq, Eq, Structural)]
pub enum Clock {
    /// Host local time (default).
    SystemLocal,
    /// UTC time.
    Utc,
    /// A fixed calendar date that is fully reproducible.
    Fixed {
        /// Year (e.g. 2026).
        year: i32,
        /// Month, 1-12.
        month: u8,
        /// Day, 1-31.
        day: u8,
    },
}

/// Whether `year` is a leap year of the proleptic Gregorian calendar.
pub open spec fn is_leap_year(year: int) -> bool {
    (year % 4 == 0 && year % 100 != 0) || year % 400 == 0
}

/// The number of days of `month` (1-12) in `year`.
pub open spec fn days_in_month(year: int, month: int) -> int {
    if month == 2 {
        if is_leap_year(year) { 29 } else { 28 }
    } else if month == 4 || month == 6 || month == 9 || month == 11 {
        30
    } else {
        31
    }
}

/// A calendar date typst can represent: a year in -9999..=9999, a month in
/// 1..=12 and a day that exists in that month.
pub open spec fn valid_date(year: i32, month: u8, day: u8) -> bool {
    &&& -9999 <= year <= 9999
    &&& 1 <= month <= 12
    &&& 1 <= day <= days_in_month(year as int, month as int)
}

/// A time of day: hour below 24, minute and second below 60.
pub open spec fn valid_time(hour: u8, minute: u8, second: u8) -> bool {
    hour < 24 && minute < 60 && second < 60
}

/// The calendar date (year, month, day) of the instant `unix` (seconds since
/// the Unix epoch) in the fixed time zone `offset` seconds east of UTC, as
/// chrono computes it (`FixedOffset::east_opt`, `DateTime::from_timestamp`,
/// `naive_utc`, `NaiveDateTime::checked_add_offset`), or `None` when chrono
/// rejects the offset or the instant, or the local time leaves chrono's
/// range.
pub uninterp spec fn calendar_date_at(unix: i64, offset: i32) -> Option<(i32, u32, u32)>;

/// Calendar date at a fixed offset. chrono accepts offsets strictly inside
/// one day; months are 1-12 and days 1-31. The checked offset addition makes
/// an instant at the edge of chrono's range yield `None`, never a panic.
#[verifier::external_body]
fn date_at_offset(unix: i64, offset: i32) -> (r: Option<(i32, u32, u32)>)
    ensures
        r == calendar_date_at(unix, offset),
        !(-86_400 < offset && offset < 86_400) ==> r is None,
        r matches Some((y, m, d)) ==> 1 <= m <= 12 && 1 <= d <= 31,
{
    let zone = chrono::FixedOffset::east_opt(offset)?;
    let date = chrono::DateTime::from_timestamp(unix, 0)?.naive_utc().checked_add_offset(zone)?;
    Some((date.year(), date.month(), date.day()))
}

/// Calendar date of the instant in the host's local time zone: the host
/// zone's offset at that instant (`Local`'s `offset_from_utc_datetime`, a
/// `FixedOffset`), added with `checked_add_offset`, so the edge of chrono's
/// range yields `None`. Which offset that is depends on the host's zone
/// settings, so it is left open: the date is the calendar date at some
/// offset, in chrono's ranges.
#[verifier::external_body]
fn local_date_at(unix: i64) -> (r: Option<(i32, u32, u32)>)
    ensures
        exists|offset: i32| r == #[trigger] calendar_date_at(unix, offset),
        r matches Some((y, m, d)) ==> 1 <= m <= 12 && 1 <= d <= 31,
{
    let utc = chrono::DateTime::from_timestamp(unix, 0)?.naive_utc();
    let zone = chrono::TimeZone::offset_from_utc_datetime(&chrono::Local, &utc);
    let date = utc.checked_add_offset(zone)?;
    Some((date.year(), date.month(), date.day()))
}

/// The current UTC date and time as (year, month, day, hour, minute, second)
/// (`chrono::Utc::now`). Only chrono's documented ranges are claimed.
#[verifier::external_body]
pub(crate) fn utc_now_fields() -> (r: (i32, u32, u32, u32, u32, u32))
    ensures
        1 <= r.1 <= 12,
        1 <= r.2 <= 31,
        r.3 < 24,
        r.4 < 60,
        r.5 < 60,
{
    let now = chrono::Utc::now();
    (now.year(), now.month(), now.day(), now.hour(), now.minute(), now.second())
}

/// A chrono date narrowed to typst's field widths.
pub open spec fn narrowed(date: Option<(i32, u32, u32)>) -> Option<(i32, u8, u8)> {
    match date {
        Some((y, m, d)) => if m <= 255 && d <= 255 { Some((y, m as u8, d as u8)) } else { None },
        None => None,
    }
}

/// The date `datetime.today()` yields for every clock setting but the host's
/// local zone with no explicit offset:
/// - a fixed clock yields its date, whatever the offset or the time;
/// - an explicit offset is absolute (UTC shifted by it) for both the UTC and
///   the local clock, and must fit an `i32` number of seconds;
/// - the UTC clock without an offset yields the UTC date.
pub open spec fn scheduled_date(clock: Clock, offset: Option<i64>, unix: i64) -> Option<(i32, u8, u8)> {
    match clock {
        Clock::Fixed { year, month, day } => Some((year, month, day)),
        _ => match offset {
            Some(secs) => if i32::MIN <= secs <= i32::MAX {
                narrowed(calendar_date_at(unix, secs as i32))
            } else {
                None
            },
            None => narrowed(calendar_date_at(unix, 0)),
        },
    }
}

/// Whether the host's local zone decides the date (local clock, no offset).
pub open spec fn uses_host_zone(clock: Clock, offset: Option<i64>) -> bool {
    clock is SystemLocal && offset is None
}

/// The calendar date for `datetime.today(offset: ..)` at the instant `unix`
/// (seconds since the epoch), with `offset` in whole seconds east of UTC
/// (`None` for `auto`).
pub fn today_ymd(clock: Clock, offset: Option<i64>, unix: i64) -> (r: Option<(i32, u8, u8)>)
    ensures
        !uses_host_zone(clock, offset) ==> r == scheduled_date(clock, offset, unix),
        uses_host_zone(clock, offset) ==> exists|zone: i32| r == narrowed(#[trigger] calendar_date_at(unix, zone)),
        !(clock is Fixed) && (offset matches Some(secs) && !(-86_400 < secs && secs < 86_400)) ==> r is None,
        !(clock is Fixed) ==> (r matches Some((y, m, d)) ==> 1 <= m <= 12 && 1 <= d <= 31),
{
    if let Clock::Fixed { year, month, day } = clock {
        return Some((year, month, day));
    }
    let date = match offset {
        Some(secs) => {
            if secs < i32::MIN as i64 || secs > i32::MAX as i64 {
                return None;
            }
            date_at_offset(unix, secs as i32)
        },
        None => match clock {
            Clock::Utc => date_at_offset(unix, 0),
            _ => local_date_at(unix),
        },
    };
    match date {
        Some((y, m, d)) => {
            if m > 255 || d > 255 {
                None
            } else {
                Some((y, m as u8, d as u8))
            }
        },
        None => None,
    }
}

/// A fixed clock yields the same date whatever the requested offset and
/// whatever the time of the render.
pub proof fn lemma_fixed_clock_ignores_time(year: i32, month: u8, day: u8, o1: Option<i64>, o2: Option<i64>, u1: i64, u2: i64)
    ensures
        scheduled_date(Clock::Fixed { year, month, day }, o1, u1) == scheduled_date(
            Clock::Fixed { year, month, day },
            o2,
            u2,
        ),
        scheduled_date(Clock::Fixed { year, month, day }, o1, u1) == Some((year, month, day)),
{
}

/// An explicit offset is absolute: the UTC clock and the local clock give the
/// same date for it.
pub proof fn lemma_explicit_offset_is_absolute(secs: i64, unix: i64)
    ensures
        !uses_host_zone(Clock::SystemLocal, Some(secs)),
        scheduled_date(Clock::Utc, Some(secs), unix) == scheduled_date(Clock::SystemLocal, Some(secs), unix),
{
}

/// The UTC clock without an offset is the UTC clock with a zero offset.
pub proof fn lemma_utc_default_offset_is_zero(unix: i64)
    ensures
        scheduled_date(Clock::Utc, None, unix) == scheduled_date(Clock::Utc, Some(0), unix),
{
}

} // verus!
