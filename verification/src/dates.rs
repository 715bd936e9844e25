//! Calendar dates read from and written to text.

use chrono::{Datelike, TimeZone};
use vstd::prelude::*;

verus! {

/// The date (year, month, day) that `s` spells in the form `%Y-%m-%d`, as
/// `chrono::NaiveDate::parse_from_str` reads it.
pub uninterp spec fn ymd_date(s: Seq<char>) -> Option<(i32, u32, u32)>;

/// Read a date written as `%Y-%m-%d`.
///
/// Calls `chrono::NaiveDate::parse_from_str` with that format and takes the
/// year, month and day of the result; the outcome depends on the text alone.
#[verifier::external_body]
pub(crate) fn parse_ymd(s: &str) -> (r: Option<(i32, u32, u32)>)
    ensures
        r == ymd_date(s@),
{
    chrono::NaiveDate::parse_from_str(s, "%Y-%m-%d").ok().map(|d| (d.year(), d.month(), d.day()))
}

/// The calendar date of the RFC 3339 timestamp `s` (in the timestamp's own
/// offset), as `chrono::DateTime::parse_from_rfc3339` reads it.
pub uninterp spec fn rfc3339_date(s: Seq<char>) -> Option<(i32, u32, u32)>;

/// Read the date of an RFC 3339 timestamp.
///
/// Calls `chrono::DateTime::parse_from_rfc3339` and takes the year, month
/// and day of its local date; the outcome depends on the text alone.
#[verifier::external_body]
pub(crate) fn parse_rfc3339_date(s: &str) -> (r: Option<(i32, u32, u32)>)
    ensures
        r == rfc3339_date(s@),
{
    chrono::DateTime::parse_from_rfc3339(s).ok().map(|dt| {
        let d = dt.date_naive();
        (d.year(), d.month(), d.day())
    })
}

/// The formats the library writes dates with: `%Y-%m-%d`, and `%a` (the
/// abbreviated weekday name).
pub open spec fn date_format(fmt: Seq<char>) -> bool {
    fmt == "%Y-%m-%d"@ || fmt == "%a"@
}

/// `year` is a leap year of the proleptic Gregorian calendar.
pub open spec fn is_leap_year(year: int) -> bool {
    year % 4 == 0 && (year % 100 != 0 || year % 400 == 0)
}

/// The number of days of `month` (1 to 12) in `year`.
pub open spec fn days_in_month(year: int, month: int) -> int {
    if month == 2 {
        if is_leap_year(year) { 29 } else { 28 }
    } else if month == 4 || month == 6 || month == 9 || month == 11 {
        30
    } else {
        31
    }
}

/// (year, month, day) is a date that `chrono::NaiveDate` holds: a year from
/// -262143 to 262142, a month from 1 to 12 and a day of that month.
pub open spec fn valid_date(year: int, month: int, day: int) -> bool {
    -262143 <= year <= 262142 && 1 <= month <= 12 && 1 <= day <= days_in_month(year, month)
}

/// The day of the week of a date, from 0 for Sunday to 6 for Saturday.
pub open spec fn weekday_index(year: int, month: int, day: int) -> int {
    let y = if month < 3 { year - 1 } else { year };
    let shift = if month == 1 { 0int } else if month == 2 { 3 } else if month == 3 { 2 }
        else if month == 4 { 5 } else if month == 5 { 0 } else if month == 6 { 3 }
        else if month == 7 { 5 } else if month == 8 { 1 } else if month == 9 { 4 }
        else if month == 10 { 6 } else if month == 11 { 2 } else { 4 };
    (y + y / 4 - y / 100 + y / 400 + shift + day) % 7
}

/// The abbreviated English name of the weekday `w` (0 is Sunday).
pub open spec fn weekday_abbrev(w: int) -> Seq<char> {
    if w == 0 { seq!['S', 'u', 'n'] }
    else if w == 1 { seq!['M', 'o', 'n'] }
    else if w == 2 { seq!['T', 'u', 'e'] }
    else if w == 3 { seq!['W', 'e', 'd'] }
    else if w == 4 { seq!['T', 'h', 'u'] }
    else if w == 5 { seq!['F', 'r', 'i'] }
    else { seq!['S', 'a', 't'] }
}

/// The decimal digits of `n` (not negative), with leading zeros up to
/// `width` digits.
pub open spec fn zero_padded(n: int, width: nat) -> Seq<char> {
    let d = crate::text::decimal_text(n);
    if d.len() < width { Seq::new((width - d.len()) as nat, |i: int| '0') + d } else { d }
}

/// A year as `%Y` writes it: four digits for the years 0 to 9999, and
/// otherwise a sign followed by at least four digits.
pub open spec fn year_text(year: int) -> Seq<char> {
    if 0 <= year <= 9999 {
        zero_padded(year, 4)
    } else if year < 0 {
        seq!['-'] + zero_padded(-year, 4)
    } else {
        seq!['+'] + zero_padded(year, 4)
    }
}

/// The text of the date (year, month, day) in one of the library's date
/// formats (`%Y-%m-%d`, or `%a` for the abbreviated weekday name), or
/// `None` when it is not a date that `chrono::NaiveDate` holds.
pub open spec fn date_formatted(year: i32, month: u32, day: u32, fmt: Seq<char>) -> Option<Seq<char>> {
    if !valid_date(year as int, month as int, day as int) {
        None
    } else if fmt == "%a"@ {
        Some(weekday_abbrev(weekday_index(year as int, month as int, day as int)))
    } else {
        Some(year_text(year as int) + seq!['-'] + zero_padded(month as int, 2) + seq!['-'] + zero_padded(day as int, 2))
    }
}

/// Write a date with a `chrono` format string.
///
/// Calls `chrono::NaiveDate::from_ymd_opt`, which gives `None` for a
/// month or day that does not exist and for a year out of its range, and
/// `NaiveDate::format`, whose `%Y` writes the year zero-padded to four
/// digits (with a sign outside 0 to 9999), `%m` and `%d` two digits each,
/// and `%a` the weekday's three-letter English name.  Formatting with an
/// invalid format string panics in `chrono`, so only the library's own
/// formats are admitted.
#[verifier::external_body]
pub(crate) fn format_date(year: i32, month: u32, day: u32, fmt: &str) -> (r: Option<String>)
    requires
        date_format(fmt@),
    ensures
        match r {
            Some(t) => date_formatted(year, month, day, fmt@) == Some(t@),
            None => date_formatted(year, month, day, fmt@) is None,
        },
{
    chrono::NaiveDate::from_ymd_opt(year, month, day).map(|d| d.format(fmt).to_string())
}

/// A date given either as `%Y-%m-%d` or as an RFC 3339 timestamp, written
/// as `%Y-%m-%d`; `None` when it is neither.
pub open spec fn iso_date_text(s: Seq<char>) -> Option<Seq<char>> {
    let d = match ymd_date(s) {
        Some(d) => Some(d),
        None => rfc3339_date(s),
    };
    match d {
        Some((y, m, dd)) => date_formatted(y, m, dd, "%Y-%m-%d"@),
        None => None,
    }
}

/// Normalise a date given as `%Y-%m-%d` or as an RFC 3339 timestamp to
/// `%Y-%m-%d`.
pub fn normalize_iso_date(s: &str) -> (r: Option<String>)
    ensures
        match r {
            Some(t) => iso_date_text(s@) == Some(t@),
            None => iso_date_text(s@) is None,
        },
{
    let d = match parse_ymd(s) {
        Some(d) => Some(d),
        None => parse_rfc3339_date(s),
    };
    match d {
        Some((y, m, dd)) => format_date(y, m, dd, "%Y-%m-%d"),
        None => None,
    }
}

} // verus!

verus! {

/// An instant: seconds since the Unix epoch and the nanoseconds past that
/// second (at or above one second only within a leap second).
#[derive(Debug, Clone, Copy, PartialEq, Eq, Structural)]
pub struct Moment {
    pub secs: i64,
    pub nanos: u32,
}

/// Whether `chrono::DateTime<Utc>` can hold the instant `secs`, `nanos`.
pub uninterp spec fn utc_in_range(secs: i64, nanos: u32) -> bool;

/// The instant `secs`, `nanos`, when `chrono` can hold it.
///
/// Calls `chrono::DateTime::from_timestamp`, which fails for an
/// out-of-range second or an invalid nanosecond count and otherwise keeps
/// both numbers.
#[verifier::external_body]
pub(crate) fn utc_moment(secs: i64, nanos: u32) -> (r: Option<Moment>)
    ensures
        r is Some == utc_in_range(secs, nanos),
        r matches Some(m) ==> m == (Moment { secs, nanos }),
{
    chrono::DateTime::from_timestamp(secs, nanos).map(|d| Moment { secs: d.timestamp(), nanos: d.timestamp_subsec_nanos() })
}

/// The instant `ms` milliseconds after the epoch, when `chrono` can hold it.
pub fn moment_from_millis(ms: i64) -> (r: Option<Moment>)
    ensures
        ({
            let secs = (ms as int) / 1000;
            let nanos = ((ms as int) % 1000) * 1_000_000;
            &&& r is Some == utc_in_range(secs as i64, nanos as u32)
            &&& r matches Some(m) ==> m.secs == secs && m.nanos == nanos
        }),
{
    let mut q = ms / 1000;
    let mut rem = ms % 1000;
    if rem < 0 {
        q = q - 1;
        rem = rem + 1000;
    }
    assert(q == (ms as int) / 1000 && rem == (ms as int) % 1000);
    utc_moment(q, (rem as u32) * 1_000_000)
}

/// The instant written by `s` in format `fmt`, read as a UTC date and time
/// (`chrono::NaiveDateTime::parse_from_str`).
pub uninterp spec fn naive_datetime(s: Seq<char>, fmt: Seq<char>) -> Option<Moment>;

/// Read a date and time in the given format, as UTC.
///
/// Calls `chrono::NaiveDateTime::parse_from_str`; the outcome depends on the
/// text and the format alone.
#[verifier::external_body]
pub(crate) fn parse_naive_datetime(s: &str, fmt: &str) -> (r: Option<Moment>)
    ensures
        r == naive_datetime(s@, fmt@),
{
    chrono::NaiveDateTime::parse_from_str(s, fmt).ok().map(|n| {
        let u = n.and_utc();
        Moment { secs: u.timestamp(), nanos: u.timestamp_subsec_nanos() }
    })
}

/// The start (UTC) of the day `s` writes as `%Y-%m-%d`.
pub uninterp spec fn date_midnight(s: Seq<char>) -> Option<Moment>;

/// Read a date written as `%Y-%m-%d` as the start of that day, in UTC.
///
/// Calls `chrono::NaiveDate::parse_from_str` and takes midnight of the
/// date; the outcome depends on the text alone.
#[verifier::external_body]
pub(crate) fn parse_date_midnight(s: &str) -> (r: Option<Moment>)
    ensures
        r == date_midnight(s@),
{
    chrono::NaiveDate::parse_from_str(s, "%Y-%m-%d").ok().and_then(|d| d.and_hms_opt(0, 0, 0)).map(|n| {
        let u = n.and_utc();
        Moment { secs: u.timestamp(), nanos: u.timestamp_subsec_nanos() }
    })
}

/// The instant at which the wall-clock time `local` (given as if it were
/// UTC) occurs in the IANA time zone `tz`: `None` for an unknown zone,
/// `Some(None)` when that wall-clock time is ambiguous or skipped there.
pub uninterp spec fn zone_instant(tz: Seq<char>, local: Moment) -> Option<Option<Moment>>;

/// Read a wall-clock time in an IANA time zone.
///
/// Parses the zone name with `chrono_tz::Tz`'s `FromStr` and converts with
/// `TimeZone::from_local_datetime(..).single()`; the outcome depends on the
/// zone name, the time and the zone database alone.
#[verifier::external_body]
pub(crate) fn zoned_instant(tz: &str, local: Moment) -> (r: Option<Option<Moment>>)
    ensures
        r == zone_instant(tz@, local),
{
    match tz.parse::<chrono_tz::Tz>() {
        Err(_) => None,
        Ok(zone) => Some(
            chrono::DateTime::from_timestamp(local.secs, local.nanos)
                .and_then(|d| zone.from_local_datetime(&d.naive_utc()).single())
                .map(|d| Moment { secs: d.timestamp(), nanos: d.timestamp_subsec_nanos() }),
        ),
    }
}

/// Read a wall-clock time in the machine's local time zone: the instant it
/// occurs at, or `None` when it is ambiguous or skipped.
///
/// Calls `chrono::Local.from_local_datetime(..).single()`.  The answer
/// depends on the machine's time zone: nothing is stated of it.
#[verifier::external_body]
pub(crate) fn local_instant(local: Moment) -> (r: Option<Moment>) {
    chrono::DateTime::from_timestamp(local.secs, local.nanos)
        .and_then(|d| chrono::Local.from_local_datetime(&d.naive_utc()).single())
        .map(|d| Moment { secs: d.timestamp(), nanos: d.timestamp_subsec_nanos() })
}

/// The RFC 3339 text of an instant in UTC (`DateTime::to_rfc3339`).
pub uninterp spec fn rfc3339_text(m: Moment) -> Option<Seq<char>>;

/// The RFC 3339 text of an instant, when `chrono` can hold it.
///
/// Calls `chrono::DateTime::to_rfc3339`; the text depends on the instant alone.
#[verifier::external_body]
pub(crate) fn format_rfc3339(m: Moment) -> (r: Option<String>)
    ensures
        match r {
            Some(t) => rfc3339_text(m) == Some(t@),
            None => rfc3339_text(m) is None,
        },
{
    chrono::DateTime::from_timestamp(m.secs, m.nanos).map(|d| d.to_rfc3339())
}

/// The RFC 2822 text of an instant in UTC (`DateTime::to_rfc2822`).
pub uninterp spec fn rfc2822_text(m: Moment) -> Option<Seq<char>>;

/// The instant falls in a year from 0 to 9999 (UTC), the years RFC 2822
/// can write: from 0000-01-01T00:00:00Z up to, but not including,
/// 10000-01-01T00:00:00Z.
pub open spec fn rfc2822_year(m: Moment) -> bool {
    -62167219200 <= m.secs < 253402300800
}

/// The RFC 2822 text of an instant, when `chrono` can hold it.
///
/// Calls `chrono::DateTime::to_rfc2822`, which panics for a year outside
/// 0 to 9999, so only instants in those years are admitted; the text
/// depends on the instant alone.
#[verifier::external_body]
pub(crate) fn format_rfc2822(m: Moment) -> (r: Option<String>)
    requires
        rfc2822_year(m),
    ensures
        match r {
            Some(t) => rfc2822_text(m) == Some(t@),
            None => rfc2822_text(m) is None,
        },
{
    chrono::DateTime::from_timestamp(m.secs, m.nanos).map(|d| d.to_rfc2822())
}

/// An instant as `%Y-%m-%d %H:%M:%S %Z` in the machine's local time zone.
///
/// Calls `with_timezone(&chrono::Local)` and `format`.  The text depends on
/// the machine's time zone: nothing is stated of it.
#[verifier::external_body]
pub(crate) fn format_local(m: Moment) -> (r: Option<String>) {
    chrono::DateTime::from_timestamp(m.secs, m.nanos)
        .map(|d| d.with_timezone(&chrono::Local).format("%Y-%m-%d %H:%M:%S %Z").to_string())
}

/// An instant as `%Y-%m-%d %H:%M:%S %Z` in the IANA time zone `tz`: `None`
/// for an unknown zone (or an instant `chrono` cannot hold).
pub uninterp spec fn zone_clock_text(tz: Seq<char>, m: Moment) -> Option<Seq<char>>;

/// An instant written in an IANA time zone.
///
/// Parses the zone with `chrono_tz::Tz`'s `FromStr`, converts with
/// `with_timezone` and formats; the text depends on the zone name, the
/// instant and the zone database alone.
#[verifier::external_body]
pub(crate) fn format_in_zone(tz: &str, m: Moment) -> (r: Option<String>)
    ensures
        match r {
            Some(t) => zone_clock_text(tz@, m) == Some(t@),
            None => zone_clock_text(tz@, m) is None,
        },
{
    let zone = tz.parse::<chrono_tz::Tz>().ok()?;
    chrono::DateTime::from_timestamp(m.secs, m.nanos)
        .map(|d| d.with_timezone(&zone).format("%Y-%m-%d %H:%M:%S %Z").to_string())
}

/// The whole seconds from instant `earlier` to instant `later`, as
/// `signed_duration_since` and `num_seconds` compute them (rounded toward
/// zero).
pub uninterp spec fn whole_seconds_between(later: Moment, earlier: Moment) -> Option<i64>;

/// The whole seconds from `earlier` to `later` (negative when `later`
/// comes first).
///
/// Calls `DateTime::signed_duration_since` and `TimeDelta::num_seconds`;
/// the result depends on the two instants alone.
#[verifier::external_body]
pub(crate) fn seconds_between(later: Moment, earlier: Moment) -> (r: Option<i64>)
    ensures
        r == whole_seconds_between(later, earlier),
{
    let a = chrono::DateTime::from_timestamp(later.secs, later.nanos)?;
    let b = chrono::DateTime::from_timestamp(earlier.secs, earlier.nanos)?;
    Some(a.signed_duration_since(b).num_seconds())
}

/// The current instant.
///
/// Calls `chrono::Utc::now`.  The value depends on the clock: nothing is
/// stated of it.
#[verifier::external_body]
pub(crate) fn now_moment() -> (r: Moment) {
    let d = chrono::Utc::now();
    Moment { secs: d.timestamp(), nanos: d.timestamp_subsec_nanos() }
}

/// The format strings the library writes instants with: date and time
/// with seconds and a `UTC` suffix, date and time to the minute, and the
/// ISO 8601 form with a `Z` suffix.
pub open spec fn utc_format(fmt: Seq<char>) -> bool {
    fmt == "%Y-%m-%d %H:%M:%S UTC"@ || fmt == "%Y-%m-%d %H:%M"@ || fmt == "%Y-%m-%dT%H:%M:%SZ"@
}

/// An instant written in UTC with the `chrono` format string `fmt`.
pub uninterp spec fn utc_formatted(m: Moment, fmt: Seq<char>) -> Option<Seq<char>>;

/// An instant written in UTC with a `chrono` format string.
///
/// Calls `chrono::DateTime::format` on the instant in UTC; the text depends
/// on the instant and the format alone.  `None` when `chrono` cannot hold
/// the instant.  Formatting with an invalid format string panics in
/// `chrono`, so only the library's own formats are admitted.
#[verifier::external_body]
pub(crate) fn format_utc(m: Moment, fmt: &str) -> (r: Option<String>)
    requires
        utc_format(fmt@),
    ensures
        match r {
            Some(t) => utc_formatted(m, fmt@) == Some(t@),
            None => utc_formatted(m, fmt@) is None,
        },
{
    chrono::DateTime::from_timestamp(m.secs, m.nanos).map(|d| d.format(fmt).to_string())
}

/// The instant an RFC 3339 timestamp names, as
/// `chrono::DateTime::parse_from_rfc3339` reads it.
pub uninterp spec fn rfc3339_instant(s: Seq<char>) -> Option<Moment>;

/// Read an RFC 3339 timestamp as an instant.
///
/// Calls `chrono::DateTime::parse_from_rfc3339` and takes the instant in
/// UTC; the outcome depends on the text alone.
#[verifier::external_body]
pub(crate) fn parse_rfc3339_instant(s: &str) -> (r: Option<Moment>)
    ensures
        r == rfc3339_instant(s@),
{
    chrono::DateTime::parse_from_rfc3339(s).ok().map(|d| Moment { secs: d.timestamp(), nanos: d.timestamp_subsec_nanos() })
}

} // verus!
