use vstd::prelude::*;
use vstd::string::StrSliceExecFns;

use crate::dates::{
    date_midnight, format_in_zone, format_local, format_rfc2822, format_rfc3339, local_instant,
    moment_from_millis, naive_datetime, now_moment, parse_date_midnight, parse_naive_datetime,
    rfc2822_text, rfc2822_year, rfc3339_text, seconds_between, utc_in_range, utc_moment, whole_seconds_between,
    utc_formatted, zone_clock_text, zone_instant, zoned_instant, Moment,
};
use crate::numbers::{decimal_i64, parse_i64};
use crate::text::{concat, decimal_text, i64_to_string, owned, str_eq, trim, trim_spec};

verus! {

/// The plural ending for a count.
pub open spec fn plural(n: int) -> Seq<char> {
    if n == 1 { Seq::empty() } else { "s"@ }
}

/// A duration of `diff` seconds (positive: in the past) in words, in the
/// largest unit that fits (30-day months, 365-day years), rounded down.
pub open spec fn relative_text(diff: int) -> Seq<char> {
    let s = if diff < 0 { -diff } else { diff };
    let suffix = if diff > 0 { "ago"@ } else { "from now"@ };
    if s < 60 {
        decimal_text(s) + " seconds "@ + suffix
    } else if s < 3600 {
        decimal_text(s / 60) + " minute"@ + plural(s / 60) + " "@ + suffix
    } else if s < 86400 {
        decimal_text(s / 3600) + " hour"@ + plural(s / 3600) + " "@ + suffix
    } else if s < 2592000 {
        decimal_text(s / 86400) + " day"@ + plural(s / 86400) + " "@ + suffix
    } else if s < 31536000 {
        decimal_text(s / 2592000) + " month"@ + plural(s / 2592000) + " "@ + suffix
    } else {
        decimal_text(s / 31536000) + " year"@ + plural(s / 31536000) + " "@ + suffix
    }
}

/// `n` followed by `unit`, its plural ending, a space and `suffix`.
fn count_with_unit(n: i64, unit: &str, suffix: &str) -> (r: String)
    ensures
        r@ == decimal_text(n as int) + unit@ + plural(n as int) + " "@ + suffix@,
{
    let mut s = concat(i64_to_string(n).as_str(), unit);
    if n != 1 {
        s = concat(s.as_str(), "s");
    }
    proof {
        reveal_strlit("s");
        reveal_strlit(" ");
    }
    s = concat(s.as_str(), " ");
    concat(s.as_str(), suffix)
}

/// A duration of `diff` seconds (positive: in the past) in words.
pub fn format_relative_time(diff: i64) -> (r: String)
    requires
        diff > i64::MIN,
    ensures
        r@ == relative_text(diff as int),
{
    let s = if diff < 0 { -diff } else { diff };
    let suffix = if diff > 0 { "ago" } else { "from now" };
    if s < 60 {
        let head = concat(i64_to_string(s).as_str(), " seconds ");
        concat(head.as_str(), suffix)
    } else if s < 3600 {
        count_with_unit(s / 60, " minute", suffix)
    } else if s < 86400 {
        count_with_unit(s / 3600, " hour", suffix)
    } else if s < 2592000 {
        count_with_unit(s / 86400, " day", suffix)
    } else if s < 31536000 {
        count_with_unit(s / 2592000, " month", suffix)
    } else {
        count_with_unit(s / 31536000, " year", suffix)
    }
}

/// The formats a date and time is tried in, in order.
pub open spec fn datetime_formats() -> Seq<Seq<char>> {
    seq![
        "%Y-%m-%d %H:%M:%S"@,
        "%Y-%m-%dT%H:%M:%S"@,
        "%Y-%m-%d %H:%M"@,
        "%Y-%m-%dT%H:%M"@,
        "%Y-%m-%d"@,
        "%d/%m/%Y %H:%M:%S"@,
        "%m/%d/%Y %H:%M:%S"@,
    ]
}

/// The first of `formats` that reads `s`, with what it reads.
pub open spec fn first_reading(s: Seq<char>, formats: Seq<Seq<char>>) -> Option<Moment>
    decreases formats.len(),
{
    if formats.len() == 0 {
        None
    } else {
        match naive_datetime(s, formats[0]) {
            Some(m) => Some(m),
            None => first_reading(s, formats.drop_first()),
        }
    }
}

/// The wall-clock time `s` writes: in the first format that reads it, or
/// as a plain date (at midnight).
pub open spec fn wall_clock_of(s: Seq<char>) -> Option<Moment> {
    match first_reading(s, datetime_formats()) {
        Some(m) => Some(m),
        None => date_midnight(s),
    }
}

/// The RFC 2822 text shown for an instant: empty outside the years 0 to
/// 9999, which RFC 2822 cannot write.
pub open spec fn rfc2822_shown(m: Moment) -> Seq<char> {
    if rfc2822_year(m) { text_or_empty(rfc2822_text(m)) } else { Seq::empty() }
}

/// The text of an optional string, empty when absent.
pub open spec fn text_or_empty(o: Option<Seq<char>>) -> Seq<char> {
    match o {
        Some(t) => t,
        None => Seq::empty(),
    }
}

/// The relative text of the instant `m` at time `now`.
pub open spec fn relative_of(m: Moment, now: Moment) -> Seq<char> {
    match whole_seconds_between(now, m) {
        Some(d) => if d > i64::MIN { relative_text(d as int) } else { Seq::empty() },
        None => Seq::empty(),
    }
}

/// State of the time converter.
#[derive(Debug, Clone)]
pub struct TimeModel {
    pub input_timestamp: String,
    pub input_datetime: String,
    pub input_timezone: String,
    pub output_timestamp: String,
    pub output_iso8601: String,
    pub output_rfc2822: String,
    pub output_relative: String,
    pub output_local: String,
    pub target_timezone: String,
    pub converted_time: String,
    pub add_seconds: i64,
    pub add_minutes: i64,
    pub add_hours: i64,
    pub add_days: i64,
    pub arithmetic_result: String,
    pub current_time: String,
    pub error_message: String,
}

/// `new` shows the instant `m` as seen at `now` (its local-time text is
/// left to the machine's time zone); the rest is `old`.
pub open spec fn shows_instant(old: TimeModel, new: TimeModel, m: Moment, now: Moment) -> bool {
    &&& new.output_timestamp@ == decimal_text(m.secs as int)
    &&& new.output_iso8601@ == text_or_empty(rfc3339_text(m))
    &&& new.output_rfc2822@ == rfc2822_shown(m)
    &&& new.output_relative@ == relative_of(m, now)
    &&& new == (TimeModel {
        output_timestamp: new.output_timestamp,
        output_iso8601: new.output_iso8601,
        output_rfc2822: new.output_rfc2822,
        output_relative: new.output_relative,
        output_local: new.output_local,
        ..old
    })
}

/// `new` is `old` with every output emptied.
pub open spec fn outputs_cleared(old: TimeModel, new: TimeModel) -> bool {
    &&& new.output_timestamp@.len() == 0
    &&& new.output_iso8601@.len() == 0
    &&& new.output_rfc2822@.len() == 0
    &&& new.output_relative@.len() == 0
    &&& new.output_local@.len() == 0
    &&& new.converted_time@.len() == 0
    &&& new.arithmetic_result@.len() == 0
    &&& new == (TimeModel {
        output_timestamp: new.output_timestamp,
        output_iso8601: new.output_iso8601,
        output_rfc2822: new.output_rfc2822,
        output_relative: new.output_relative,
        output_local: new.output_local,
        converted_time: new.converted_time,
        arithmetic_result: new.arithmetic_result,
        ..old
    })
}

/// `new` is `old` with the error message `text`.
pub open spec fn reports(old: TimeModel, new: TimeModel, text: Seq<char>) -> bool {
    new.error_message@ == text && new == (TimeModel { error_message: new.error_message, ..old })
}

/// The instant a timestamp names: milliseconds above ten digits, else
/// seconds.
pub open spec fn timestamp_instant(t: i64) -> Option<Moment> {
    if t > 9999999999 {
        let secs = (t as int) / 1000;
        let nanos = ((t as int) % 1000) * 1_000_000;
        if utc_in_range(secs as i64, nanos as u32) { Some(Moment { secs: secs as i64, nanos: nanos as u32 }) } else { None }
    } else {
        if utc_in_range(t, 0) { Some(Moment { secs: t, nanos: 0 }) } else { None }
    }
}

/// `new` is the state after reading the timestamp input of `old` and
/// showing it as seen at `now`.
pub open spec fn timestamp_read(old: TimeModel, new: TimeModel, now: Moment) -> bool {
    let m = TimeModel { error_message: new.error_message, ..old };
    let input = old.input_timestamp@;
    if input.len() == 0 {
        new.error_message@.len() == 0 && outputs_cleared(m, new)
    } else {
        match decimal_i64(trim_spec(input)) {
            None => new.error_message@ == "Invalid timestamp format"@ && new == m,
            Some(t) => match timestamp_instant(t) {
                None => new.error_message@ == "Invalid timestamp value"@ && new == m,
                Some(inst) => new.error_message@.len() == 0 && shows_instant(m, new, inst, now),
            },
        }
    }
}

/// `new` is the state after reading the date-and-time input of `old` in
/// its input time zone and showing the instant as seen at `now`.
pub open spec fn datetime_read(old: TimeModel, new: TimeModel, now: Moment) -> bool {
    let m = TimeModel { error_message: new.error_message, ..old };
    let input = old.input_datetime@;
    let tz = old.input_timezone@;
    if input.len() == 0 {
        new.error_message@.len() == 0 && outputs_cleared(m, new)
    } else {
        match wall_clock_of(trim_spec(input)) {
            None => new.error_message@ == "Could not parse datetime. Try: YYYY-MM-DD HH:MM:SS"@ && new == m,
            Some(wall) => if tz == "UTC"@ {
                new.error_message@.len() == 0 && shows_instant(m, new, wall, now)
            } else if tz == "Local"@ {
                (new.error_message@ == "Ambiguous local time"@ && new == m)
                    || (new.error_message@.len() == 0
                        && exists|inst: Moment| #[trigger] shows_instant(m, new, inst, now))
            } else {
                match zone_instant(tz, wall) {
                    None => new.error_message@ == "Invalid timezone"@ && new == m,
                    Some(None) => new.error_message@ == "Ambiguous time in timezone"@ && new == m,
                    Some(Some(inst)) => new.error_message@.len() == 0 && shows_instant(m, new, inst, now),
                }
            },
        }
    }
}

/// The report of the current time `now`: in UTC, in the machine's local
/// time zone (`local`), and as a timestamp.
pub open spec fn current_time_report(now: Moment, local: Seq<char>) -> Seq<char> {
    "UTC: "@ + text_or_empty(utc_formatted(now, "%Y-%m-%d %H:%M:%S UTC"@)) + "\nLocal: "@ + local
        + "\nTimestamp: "@ + decimal_text(now.secs as int)
}

/// `new` reports the current time `now` (whose local-time text is `local`)
/// and shows it as the instant, seen at itself.
pub open spec fn current_time_shown(old: TimeModel, new: TimeModel, now: Moment, local: Seq<char>) -> bool {
    &&& new.current_time@ == current_time_report(now, local)
    &&& shows_instant(TimeModel { current_time: new.current_time, ..old }, new, now, now)
}

/// An empty string.
fn empty() -> (r: String)
    ensures
        r@.len() == 0,
{
    String::new()
}

/// The text of an optional string, empty when absent.
fn or_empty(o: Option<String>) -> (r: String)
    ensures
        o matches Some(t) ==> r@ == t@,
        o is None ==> r@.len() == 0,
{
    match o {
        Some(t) => t,
        None => String::new(),
    }
}

impl TimeModel {
    /// The converter with empty inputs and outputs, reading times as UTC
    /// and converting to `America/New_York`.
    pub fn new() -> (r: Self)
        ensures
            r.input_timezone@ == "UTC"@,
            r.target_timezone@ == "America/New_York"@,
            r.add_seconds == 0 && r.add_minutes == 0 && r.add_hours == 0 && r.add_days == 0,
            r.input_timestamp@.len() == 0 && r.input_datetime@.len() == 0,
            r.error_message@.len() == 0,
    {
        TimeModel {
            input_timestamp: empty(),
            input_datetime: empty(),
            input_timezone: owned("UTC"),
            output_timestamp: empty(),
            output_iso8601: empty(),
            output_rfc2822: empty(),
            output_relative: empty(),
            output_local: empty(),
            target_timezone: owned("America/New_York"),
            converted_time: empty(),
            add_seconds: 0,
            add_minutes: 0,
            add_hours: 0,
            add_days: 0,
            arithmetic_result: empty(),
            current_time: empty(),
            error_message: empty(),
        }
    }

    /// Show the instant `m` as seen at `now`.
    fn set_outputs(&mut self, m: Moment, now: Moment)
        ensures
            shows_instant(*old(self), *final(self), m, now),
    {
        self.output_timestamp = i64_to_string(m.secs);
        self.output_iso8601 = or_empty(format_rfc3339(m));
        self.output_rfc2822 = if -62167219200 <= m.secs && m.secs < 253402300800 {
            or_empty(format_rfc2822(m))
        } else {
            empty()
        };
        self.output_relative = match seconds_between(now, m) {
            Some(d) => if d > i64::MIN { format_relative_time(d) } else { empty() },
            None => empty(),
        };
        self.output_local = or_empty(format_local(m));
        assert(self.output_iso8601@ =~= text_or_empty(rfc3339_text(m)));
        assert(self.output_rfc2822@ =~= rfc2822_shown(m));
        assert(self.output_relative@ =~= relative_of(m, now));
    }

    /// Empty every output.
    pub fn clear_outputs(&mut self)
        ensures
            outputs_cleared(*old(self), *final(self)),
    {
        self.output_timestamp = empty();
        self.output_iso8601 = empty();
        self.output_rfc2822 = empty();
        self.output_relative = empty();
        self.output_local = empty();
        self.converted_time = empty();
        self.arithmetic_result = empty();
    }

    /// Read the timestamp input (seconds, or milliseconds above ten digits)
    /// and show it as seen at `now`.
    pub fn parse_timestamp_at(&mut self, now: Moment)
        ensures
            timestamp_read(*old(self), *final(self), now),
    {
        self.error_message = empty();
        if self.input_timestamp.as_str().unicode_len() == 0 {
            self.clear_outputs();
            return;
        }
        let t = match parse_i64(trim(self.input_timestamp.as_str())) {
            Some(t) => t,
            None => {
                self.error_message = owned("Invalid timestamp format");
                return;
            },
        };
        let inst = if t > 9999999999 {
            moment_from_millis(t)
        } else {
            utc_moment(t, 0)
        };
        match inst {
            Some(m) => self.set_outputs(m, now),
            None => {
                self.error_message = owned("Invalid timestamp value");
            },
        }
    }

    /// Read the timestamp input and show it as seen now.
    pub fn parse_timestamp(&mut self)
        ensures
            exists|now: Moment| #[trigger] timestamp_read(*old(self), *final(self), now),
    {
        let now = now_moment();
        self.parse_timestamp_at(now);
    }

    /// Read the date-and-time input as a wall-clock time in the input time
    /// zone (`UTC`, `Local` or an IANA zone name) and show the instant as
    /// seen at `now`.
    pub fn parse_datetime_at(&mut self, now: Moment)
        ensures
            datetime_read(*old(self), *final(self), now),
    {
        self.error_message = empty();
        if self.input_datetime.as_str().unicode_len() == 0 {
            self.clear_outputs();
            return;
        }
        let input = trim(self.input_datetime.as_str());
        let formats: [&str; 7] = [
            "%Y-%m-%d %H:%M:%S",
            "%Y-%m-%dT%H:%M:%S",
            "%Y-%m-%d %H:%M",
            "%Y-%m-%dT%H:%M",
            "%Y-%m-%d",
            "%d/%m/%Y %H:%M:%S",
            "%m/%d/%Y %H:%M:%S",
        ];
        let ghost fs = datetime_formats();
        assert(formats@.map_values(|f: &str| f@) =~= fs);
        let mut parsed: Option<Moment> = None;
        let mut i: usize = 0;
        assert(fs.subrange(0, 7) =~= fs);
        while i < 7 && parsed.is_none()
            invariant
                i <= 7,
                formats@.map_values(|f: &str| f@) == fs,
                fs == datetime_formats(),
                parsed is None ==> first_reading(input@, fs) == first_reading(input@, fs.subrange(i as int, 7)),
                parsed is Some ==> parsed == first_reading(input@, fs),
            decreases 7 - i,
        {
            let ghost rest = fs.subrange(i as int, 7);
            assert(rest[0] == formats@[i as int]@);
            assert(rest.drop_first() =~= fs.subrange(i + 1, 7));
            parsed = parse_naive_datetime(input, formats[i]);
            i = i + 1;
        }
        proof {
            if parsed is None {
                assert(fs.subrange(7, 7) =~= Seq::<Seq<char>>::empty());
            }
        }
        if parsed.is_none() {
            parsed = parse_date_midnight(input);
        }
        let wall = match parsed {
            Some(w) => w,
            None => {
                self.error_message = owned("Could not parse datetime. Try: YYYY-MM-DD HH:MM:SS");
                return;
            },
        };
        let tz = self.input_timezone.as_str();
        let inst = if str_eq(tz, "UTC") {
            wall
        } else if str_eq(tz, "Local") {
            match local_instant(wall) {
                Some(m) => m,
                None => {
                    self.error_message = owned("Ambiguous local time");
                    return;
                },
            }
        } else {
            match zoned_instant(tz, wall) {
                None => {
                    self.error_message = owned("Invalid timezone");
                    return;
                },
                Some(None) => {
                    self.error_message = owned("Ambiguous time in timezone");
                    return;
                },
                Some(Some(m)) => m,
            }
        };
        self.set_outputs(inst, now);
        assert(self.output_timestamp@ == decimal_text(inst.secs as int));
    }

    /// Read the date-and-time input and show it as seen now.
    pub fn parse_datetime(&mut self)
        ensures
            exists|now: Moment| #[trigger] datetime_read(*old(self), *final(self), now),
    {
        let now = now_moment();
        self.parse_datetime_at(now);
    }

    /// Show the shown timestamp in the target time zone (`Local` or an IANA
    /// zone name).
    pub fn convert_timezone(&mut self)
        ensures
            ({
                let m = TimeModel { error_message: final(self).error_message, ..*old(self) };
                let ts = old(self).output_timestamp@;
                let tz = old(self).target_timezone@;
                if ts.len() == 0 {
                    &&& final(self).error_message@.len() == 0
                    &&& final(self).converted_time@.len() == 0
                    &&& *final(self) == (TimeModel { converted_time: final(self).converted_time, ..m })
                } else {
                    match decimal_i64(ts) {
                        None => reports(*old(self), *final(self), "No timestamp to convert"@),
                        Some(t) => if !utc_in_range(t, 0) {
                            reports(*old(self), *final(self), "Invalid timestamp"@)
                        } else if tz == "Local"@ {
                            final(self).error_message@.len() == 0
                                && *final(self) == (TimeModel { converted_time: final(self).converted_time, ..m })
                        } else {
                            match zone_clock_text(tz, Moment { secs: t, nanos: 0 }) {
                                None => reports(*old(self), *final(self), "Invalid target timezone"@),
                                Some(text) => {
                                    &&& final(self).error_message@.len() == 0
                                    &&& final(self).converted_time@ == text
                                    &&& *final(self) == (TimeModel { converted_time: final(self).converted_time, ..m })
                                },
                            }
                        },
                    }
                }
            }),
    {
        self.error_message = empty();
        if self.output_timestamp.as_str().unicode_len() == 0 {
            self.converted_time = empty();
            return;
        }
        let t = match parse_i64(self.output_timestamp.as_str()) {
            Some(t) => t,
            None => {
                self.error_message = owned("No timestamp to convert");
                return;
            },
        };
        let m = match utc_moment(t, 0) {
            Some(m) => m,
            None => {
                self.error_message = owned("Invalid timestamp");
                return;
            },
        };
        if str_eq(self.target_timezone.as_str(), "Local") {
            self.converted_time = or_empty(format_local(m));
        } else {
            match format_in_zone(self.target_timezone.as_str(), m) {
                Some(text) => self.converted_time = text,
                None => {
                    self.error_message = owned("Invalid target timezone");
                },
            }
        }
    }

    /// The offset added by the arithmetic inputs, in seconds, when it can be
    /// computed without overflow and stays within the range of a duration.
    pub fn arithmetic_offset(&self) -> (r: Option<i64>)
        ensures
            r == offset_of(*self),
    {
        let m = match self.add_minutes.checked_mul(60) { Some(v) => v, None => return None };
        let h = match self.add_hours.checked_mul(3600) { Some(v) => v, None => return None };
        let d = match self.add_days.checked_mul(86400) { Some(v) => v, None => return None };
        let a = match self.add_seconds.checked_add(m) { Some(v) => v, None => return None };
        let b = match a.checked_add(h) { Some(v) => v, None => return None };
        let total = match b.checked_add(d) { Some(v) => v, None => return None };
        if total < -(i64::MAX / 1000) || total > i64::MAX / 1000 {
            None
        } else {
            Some(total)
        }
    }

    /// Add the arithmetic inputs to the shown timestamp and report the new
    /// instant: its timestamp, its RFC 3339 text and its local time (left to
    /// the machine's time zone).
    pub fn apply_arithmetic(&mut self)
        requires
            arithmetic_defined(*old(self)),
        ensures
            ({
                let m = TimeModel { error_message: final(self).error_message, ..*old(self) };
                let ts = old(self).output_timestamp@;
                if ts.len() == 0 {
                    &&& final(self).error_message@.len() == 0
                    &&& final(self).arithmetic_result@.len() == 0
                    &&& *final(self) == (TimeModel { arithmetic_result: final(self).arithmetic_result, ..m })
                } else {
                    match decimal_i64(ts) {
                        None => reports(*old(self), *final(self), "No timestamp for arithmetic"@),
                        Some(t) => if !utc_in_range(t, 0) {
                            reports(*old(self), *final(self), "Invalid timestamp"@)
                        } else {
                            &&& final(self).error_message@.len() == 0
                            &&& *final(self) == (TimeModel { arithmetic_result: final(self).arithmetic_result, ..m })
                            &&& exists|local: Seq<char>| #[trigger] arithmetic_report((t + offset_of(*old(self))->Some_0) as i64, local)
                                == final(self).arithmetic_result@
                        },
                    }
                }
            }),
    {
        self.error_message = empty();
        if self.output_timestamp.as_str().unicode_len() == 0 {
            self.arithmetic_result = empty();
            return;
        }
        let t = match parse_i64(self.output_timestamp.as_str()) {
            Some(t) => t,
            None => {
                self.error_message = owned("No timestamp for arithmetic");
                return;
            },
        };
        match utc_moment(t, 0) {
            Some(_) => {},
            None => {
                self.error_message = owned("Invalid timestamp");
                return;
            },
        }
        let off = match self.arithmetic_offset() {
            Some(o) => o,
            None => return,
        };
        let secs = t + off;
        let m = Moment { secs, nanos: 0 };
        let local = or_empty(format_local(m));
        let mut r = concat("New timestamp: ", i64_to_string(secs).as_str());
        r = concat(r.as_str(), "\nISO 8601: ");
        r = concat(r.as_str(), or_empty(format_rfc3339(m)).as_str());
        r = concat(r.as_str(), "\nLocal: ");
        r = concat(r.as_str(), local.as_str());
        assert(arithmetic_report(secs, local@) == r@);
        self.arithmetic_result = r;
    }

    /// Apply the arithmetic when its result is defined: the offset fits
    /// and the new instant is in range.  Otherwise nothing changes and
    /// `false` is returned.
    pub fn try_apply_arithmetic(&mut self) -> (ok: bool)
        ensures
            ok == arithmetic_defined(*old(self)),
            !ok ==> *final(self) == *old(self),
    {
        if self.output_timestamp.as_str().unicode_len() > 0 {
            if let Some(t) = parse_i64(self.output_timestamp.as_str()) {
                if utc_moment(t, 0).is_some() {
                    match self.arithmetic_offset() {
                        None => return false,
                        Some(off) => {
                            match t.checked_add(off) {
                                None => return false,
                                Some(secs) => {
                                    if utc_moment(secs, 0).is_none() {
                                        return false;
                                    }
                                },
                            }
                        },
                    }
                }
            }
        }
        self.apply_arithmetic();
        true
    }

    /// Show the current time in UTC and locally, and show it as the instant.
    pub fn get_current_time(&mut self)
        ensures
            exists|now: Moment, local: Seq<char>| #[trigger] current_time_shown(*old(self), *final(self), now, local),
    {
        let now = now_moment();
        let utc = or_empty(crate::dates::format_utc(now, "%Y-%m-%d %H:%M:%S UTC"));
        let local = or_empty(format_local(now));
        let mut r = concat("UTC: ", utc.as_str());
        r = concat(r.as_str(), "\nLocal: ");
        r = concat(r.as_str(), local.as_str());
        r = concat(r.as_str(), "\nTimestamp: ");
        r = concat(r.as_str(), i64_to_string(now.secs).as_str());
        self.current_time = r;
        self.set_outputs(now, now);
        assert(current_time_shown(*old(self), *self, now, local@));
    }

    /// Reset the inputs and empty every output.
    pub fn clear(&mut self)
        ensures
            final(self).input_timestamp@.len() == 0,
            final(self).input_datetime@.len() == 0,
            final(self).add_seconds == 0 && final(self).add_minutes == 0,
            final(self).add_hours == 0 && final(self).add_days == 0,
            final(self).output_timestamp@.len() == 0,
            final(self).output_iso8601@.len() == 0,
            final(self).output_rfc2822@.len() == 0,
            final(self).output_relative@.len() == 0,
            final(self).output_local@.len() == 0,
            final(self).converted_time@.len() == 0,
            final(self).arithmetic_result@.len() == 0,
            final(self).current_time@.len() == 0,
            final(self).error_message@.len() == 0,
            final(self).input_timezone == old(self).input_timezone,
            final(self).target_timezone == old(self).target_timezone,
    {
        self.input_timestamp = empty();
        self.input_datetime = empty();
        self.add_seconds = 0;
        self.add_minutes = 0;
        self.add_hours = 0;
        self.add_days = 0;
        self.clear_outputs();
        self.current_time = empty();
        self.error_message = empty();
    }
}

/// The offset the arithmetic inputs of `m` add, in seconds, when it can be
/// computed in `i64` and stays within the range of a duration.
pub open spec fn offset_of(m: TimeModel) -> Option<i64> {
    let total = m.add_seconds + m.add_minutes * 60 + m.add_hours * 3600 + m.add_days * 86400;
    let fits = i64::MIN <= m.add_minutes * 60 <= i64::MAX
        && i64::MIN <= m.add_hours * 3600 <= i64::MAX
        && i64::MIN <= m.add_days * 86400 <= i64::MAX
        && i64::MIN <= m.add_seconds + m.add_minutes * 60 <= i64::MAX
        && i64::MIN <= m.add_seconds + m.add_minutes * 60 + m.add_hours * 3600 <= i64::MAX
        && i64::MIN <= total <= i64::MAX
        && -(i64::MAX / 1000) <= total <= i64::MAX / 1000;
    if fits { Some(total as i64) } else { None }
}

/// The arithmetic of `m` is defined: whenever the shown timestamp is a valid
/// instant, the offset fits and the new instant is in range.
pub open spec fn arithmetic_defined(m: TimeModel) -> bool {
    m.output_timestamp@.len() > 0 ==> match decimal_i64(m.output_timestamp@) {
        Some(t) => utc_in_range(t, 0) ==> match offset_of(m) {
            Some(off) => i64::MIN <= t + off <= i64::MAX && utc_in_range((t + off) as i64, 0),
            None => false,
        },
        None => true,
    }
}

/// The report of the arithmetic: the new timestamp, its RFC 3339 text and
/// its local time.
pub open spec fn arithmetic_report(secs: i64, local: Seq<char>) -> Seq<char> {
    "New timestamp: "@ + decimal_text(secs as int) + "\nISO 8601: "@
        + text_or_empty(rfc3339_text(Moment { secs, nanos: 0 })) + "\nLocal: "@ + local
}

/// `s` ends with `t`.
pub open spec fn ends_with(s: Seq<char>, t: Seq<char>) -> bool {
    s.len() >= t.len() && s.subrange(s.len() - t.len(), s.len() as int) == t
}

/// A text ends with what is appended to it.
proof fn lemma_ends_with_appended(a: Seq<char>, t: Seq<char>)
    ensures
        ends_with(a + t, t),
{
    assert((a + t).subrange(a.len() as int, (a + t).len() as int) =~= t);
}

/// A relative time says which side of now it lies on by its sign alone:
/// for every difference, a positive one (in the past) is shown ending in
/// `ago`, and zero or a negative one (in the future) ending in `from now`,
/// whatever unit it is shown in.
pub proof fn law_relative_time_suffix_follows_sign(diff: int)
    ensures
        diff > 0 ==> ends_with(relative_text(diff), "ago"@),
        diff <= 0 ==> ends_with(relative_text(diff), "from now"@),
{
    let s = if diff < 0 { -diff } else { diff };
    let suffix = if diff > 0 { "ago"@ } else { "from now"@ };
    let t = relative_text(diff);
    if s < 60 {
        lemma_ends_with_appended(decimal_text(s) + " seconds "@, suffix);
    } else if s < 3600 {
        lemma_ends_with_appended(decimal_text(s / 60) + " minute"@ + plural(s / 60) + " "@, suffix);
    } else if s < 86400 {
        lemma_ends_with_appended(decimal_text(s / 3600) + " hour"@ + plural(s / 3600) + " "@, suffix);
    } else if s < 2592000 {
        lemma_ends_with_appended(decimal_text(s / 86400) + " day"@ + plural(s / 86400) + " "@, suffix);
    } else if s < 31536000 {
        lemma_ends_with_appended(decimal_text(s / 2592000) + " month"@ + plural(s / 2592000) + " "@, suffix);
    } else {
        lemma_ends_with_appended(decimal_text(s / 31536000) + " year"@ + plural(s / 31536000) + " "@, suffix);
    }
}

} // verus!
