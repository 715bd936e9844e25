use vstd::prelude::*;
use vstd::string::StrSliceExecFns;

use crate::models::project::shows;
use crate::models::UiMessage;
use crate::services::calendar::{
    calendar_error_text, CalendarEvent, CalendarInfo, CalendarServiceMessage,
};
use crate::dates::{format_rfc3339, moment_from_millis, rfc3339_text, utc_in_range, Moment};
use crate::json::lists::{
    bool_to_json, comma_joined, json_bool, json_opt_text, json_quoted, opt_text_to_json, quote_json,
};
use crate::services::google::google_cache_path_in;
use crate::text::{concat, concat3, owned};

verus! {

/// Milliseconds in a day.
pub const MILLIS_PER_DAY: i64 = 86_400_000;

/// The UTC day (days since the epoch) of a time in milliseconds.
pub open spec fn utc_day(ms: int) -> int {
    ms / (MILLIS_PER_DAY as int)
}

/// The two-digit text of a number below 100.
pub open spec fn two_digits(n: int) -> Seq<char> {
    seq![crate::text::digit_char(n / 10), crate::text::digit_char(n % 10)]
}

/// The `HH:MM` text (UTC) of a time in milliseconds.
pub open spec fn utc_clock_text(ms: int) -> Seq<char> {
    let in_day = ms % (MILLIS_PER_DAY as int);
    two_digits(in_day / 3_600_000) + ":"@ + two_digits((in_day % 3_600_000) / 60_000)
}

/// The number of events that start on UTC day `day`.
pub open spec fn count_on_day(events: Seq<CalendarEvent>, day: int) -> int
    decreases events.len(),
{
    if events.len() == 0 {
        0
    } else {
        count_on_day(events.drop_last(), day) + if utc_day(events.last().start_millis as int) == day { 1int } else { 0int }
    }
}

/// The position of the next event after `now`: among the events starting
/// strictly later, the first one with the earliest start.
pub open spec fn next_event_index(events: Seq<CalendarEvent>, now: i64) -> Option<int>
    decreases events.len(),
{
    if events.len() == 0 {
        None
    } else {
        let best = next_event_index(events.drop_last(), now);
        let e = events.last();
        if e.start_millis > now && (match best {
            None => true,
            Some(b) => e.start_millis < events[b].start_millis,
        }) {
            Some(events.len() - 1)
        } else {
            best
        }
    }
}

/// The text shown for an event's summary: its summary, or `(No title)`
/// when it is empty.
pub open spec fn summary_text(s: Seq<char>) -> Seq<char> {
    if s.len() == 0 { "(No title)"@ } else { s }
}

/// The two-digit text of a number below 100.
fn two_digit_text(n: i64) -> (r: String)
    requires
        0 <= n < 100,
    ensures
        r@ == two_digits(n as int),
{
    let tens = digit((n / 10) as u8);
    let ones = digit((n % 10) as u8);
    crate::text::concat(tens, ones)
}

/// The one-character text of a digit.
fn digit(d: u8) -> (r: &'static str)
    requires
        d < 10,
    ensures
        r@ == seq![crate::text::digit_char(d as int)],
{
    proof {
        reveal_strlit("0");
        reveal_strlit("1");
        reveal_strlit("2");
        reveal_strlit("3");
        reveal_strlit("4");
        reveal_strlit("5");
        reveal_strlit("6");
        reveal_strlit("7");
        reveal_strlit("8");
        reveal_strlit("9");
    }
    if d == 0 { "0" } else if d == 1 { "1" } else if d == 2 { "2" } else if d == 3 { "3" } else if d == 4 { "4" }
    else if d == 5 { "5" } else if d == 6 { "6" } else if d == 7 { "7" } else if d == 8 { "8" } else { "9" }
}

/// The `HH:MM` text (UTC) of a time in milliseconds.
pub fn clock_text(ms: i64) -> (r: String)
    ensures
        r@ == utc_clock_text(ms as int),
{
    let in_day = ms % MILLIS_PER_DAY;
    let in_day = if in_day < 0 { in_day + MILLIS_PER_DAY } else { in_day };
    assert(in_day == (ms as int) % (MILLIS_PER_DAY as int));
    let h = two_digit_text(in_day / 3_600_000);
    let m = two_digit_text((in_day % 3_600_000) / 60_000);
    concat3(h.as_str(), ":", m.as_str())
}

/// The UTC day of a time in milliseconds.
fn day_of(ms: i64) -> (r: i64)
    ensures
        r == utc_day(ms as int),
{
    let q = ms / MILLIS_PER_DAY;
    if ms % MILLIS_PER_DAY < 0 { q - 1 } else { q }
}

/// The RFC 3339 text of the instant `ms` milliseconds after the epoch;
/// empty when `chrono` cannot hold it.
pub open spec fn millis_rfc3339(ms: i64) -> Seq<char> {
    let secs = (ms as int) / 1000;
    let nanos = ((ms as int) % 1000) * 1_000_000;
    if utc_in_range(secs as i64, nanos as u32) {
        match rfc3339_text(Moment { secs: secs as i64, nanos: nanos as u32 }) {
            Some(t) => t,
            None => Seq::empty(),
        }
    } else {
        Seq::empty()
    }
}

/// The JSON object describing an event, its keys in alphabetical order.
pub open spec fn event_json(e: CalendarEvent) -> Seq<char> {
    "{\"allDay\":"@ + json_bool(e.all_day) + ",\"description\":"@ + json_opt_text(e.description)
        + ",\"end\":"@ + json_quoted(millis_rfc3339(e.end_millis)) + ",\"id\":"@ + json_quoted(e.id@)
        + ",\"location\":"@ + json_opt_text(e.location) + ",\"start\":"@ + json_quoted(
        millis_rfc3339(e.start_millis)) + ",\"status\":"@ + json_quoted(e.status@) + ",\"summary\":"@
        + json_quoted(e.summary@) + "}"@
}

/// The JSON object describing a calendar, its keys in alphabetical order.
pub open spec fn calendar_json(c: CalendarInfo) -> Seq<char> {
    "{\"backgroundColor\":"@ + json_opt_text(c.background_color) + ",\"id\":"@ + json_quoted(c.id@)
        + ",\"isPrimary\":"@ + json_bool(c.is_primary) + ",\"summary\":"@ + json_quoted(c.summary@) + "}"@
}

/// The JSON array describing the calendars.
pub open spec fn calendars_json(cs: Seq<CalendarInfo>) -> Seq<char> {
    "["@ + comma_joined(cs.map_values(|c: CalendarInfo| calendar_json(c))) + "]"@
}

/// The RFC 3339 text of an instant given in milliseconds.
fn millis_text(ms: i64) -> (r: String)
    ensures
        r@ == millis_rfc3339(ms),
{
    match moment_from_millis(ms) {
        Some(m) => match format_rfc3339(m) {
            Some(t) => t,
            None => String::new(),
        },
        None => String::new(),
    }
}

/// The JSON object describing an event.
fn event_to_json(e: &CalendarEvent) -> (r: String)
    ensures
        r@ == event_json(*e),
{
    let mut s = concat("{\"allDay\":", bool_to_json(e.all_day).as_str());
    s = concat3(s.as_str(), ",\"description\":", opt_text_to_json(&e.description).as_str());
    s = concat3(s.as_str(), ",\"end\":", quote_json(millis_text(e.end_millis).as_str()).as_str());
    s = concat3(s.as_str(), ",\"id\":", quote_json(e.id.as_str()).as_str());
    s = concat3(s.as_str(), ",\"location\":", opt_text_to_json(&e.location).as_str());
    s = concat3(s.as_str(), ",\"start\":", quote_json(millis_text(e.start_millis).as_str()).as_str());
    s = concat3(s.as_str(), ",\"status\":", quote_json(e.status.as_str()).as_str());
    s = concat3(s.as_str(), ",\"summary\":", quote_json(e.summary.as_str()).as_str());
    concat(s.as_str(), "}")
}

/// The JSON object describing a calendar.
fn calendar_to_json(c: &CalendarInfo) -> (r: String)
    ensures
        r@ == calendar_json(*c),
{
    let mut s = concat("{\"backgroundColor\":", opt_text_to_json(&c.background_color).as_str());
    s = concat3(s.as_str(), ",\"id\":", quote_json(c.id.as_str()).as_str());
    s = concat3(s.as_str(), ",\"isPrimary\":", bool_to_json(c.is_primary).as_str());
    s = concat3(s.as_str(), ",\"summary\":", quote_json(c.summary.as_str()).as_str());
    concat(s.as_str(), "}")
}

/// State of the calendar view.
#[derive(Debug, Clone)]
pub struct CalendarModel {
    pub loading: bool,
    pub authenticated: bool,
    pub error_message: UiMessage,
    pub event_count: i32,
    pub today_event_count: i32,
    pub next_event_summary: String,
    pub next_event_time: String,
    pub events: Vec<CalendarEvent>,
    pub calendars: Vec<CalendarInfo>,
}

impl CalendarModel {
    /// An empty model.
    pub fn new() -> (r: Self)
        ensures
            !r.loading && !r.authenticated,
            r.error_message == UiMessage::Empty,
            r.event_count == 0 && r.today_event_count == 0,
            r.next_event_summary@.len() == 0 && r.next_event_time@.len() == 0,
            r.events@.len() == 0 && r.calendars@.len() == 0,
    {
        CalendarModel {
            loading: false,
            authenticated: false,
            error_message: UiMessage::Empty,
            event_count: 0,
            today_event_count: 0,
            next_event_summary: String::new(),
            next_event_time: String::new(),
            events: Vec::new(),
            calendars: Vec::new(),
        }
    }

    /// The event at `index` as a JSON object, `{}` for an invalid index.
    pub fn get_event(&self, index: i32) -> (r: String)
        ensures
            0 <= index < self.events@.len() ==> r@ == event_json(self.events@[index as int]),
            !(0 <= index < self.events@.len()) ==> r@ == "{}"@,
    {
        if index < 0 || index as usize >= self.events.len() {
            return owned("{}");
        }
        event_to_json(&self.events[index as usize])
    }

    /// The calendars as a JSON array of objects.
    pub fn get_calendars(&self) -> (r: String)
        ensures
            r@ == calendars_json(self.calendars@),
    {
        let ghost items = self.calendars@.map_values(|c: CalendarInfo| calendar_json(c));
        let mut body = String::new();
        let mut i: usize = 0;
        while i < self.calendars.len()
            invariant
                i <= self.calendars@.len(),
                items == self.calendars@.map_values(|c: CalendarInfo| calendar_json(c)),
                body@ == comma_joined(items.subrange(0, i as int)),
            decreases self.calendars.len() - i,
        {
            assert(items.subrange(0, i + 1).drop_last() =~= items.subrange(0, i as int));
            let item = calendar_to_json(&self.calendars[i]);
            if i == 0 {
                body = item;
            } else {
                body = concat3(body.as_str(), ",", item.as_str());
            }
            i = i + 1;
        }
        assert(items.subrange(0, self.calendars@.len() as int) =~= items);
        concat3("[", body.as_str(), "]")
    }

    /// Refresh the authentication flag from whether a Google token is
    /// stored; when it is, `upcoming` (the cached number of events in the
    /// next day, if the cache could tell) becomes the count of today's
    /// events.
    pub fn check_auth(&mut self, has_token: bool, upcoming: Option<u32>)
        ensures
            has_token && upcoming is Some ==> *final(self) == (CalendarModel {
                authenticated: true,
                today_event_count: upcoming->Some_0 as i32,
                ..*old(self)
            }),
            !(has_token && upcoming is Some) ==> *final(self) == (CalendarModel { authenticated: has_token, ..*old(self) }),
    {
        self.authenticated = has_token;
        if has_token {
            if let Some(n) = upcoming {
                self.today_event_count = n as i32;
            }
        }
    }

    /// Start fetching events: `access_token` is the stored Google token,
    /// if any.  Returns the token and the path of the local event cache to
    /// fetch with, given the user's configuration directory.
    pub fn fetch_events(&mut self, access_token: Option<String>, channel_ready: bool, config_dir: Option<String>) -> (r: Option<(String, String)>)
        ensures
            match access_token {
                None => {
                    &&& r is None
                    &&& shows(final(self).error_message, "Not authenticated"@)
                    &&& *final(self) == (CalendarModel { error_message: final(self).error_message, authenticated: false, ..*old(self) })
                },
                Some(t) => if !channel_ready {
                    &&& r is None
                    &&& shows(final(self).error_message, "Service channel not ready"@)
                    &&& *final(self) == (CalendarModel { error_message: final(self).error_message, ..*old(self) })
                } else {
                    &&& r matches Some((tok, path)) && tok == t
                        && path@ == crate::text::joined_path(crate::services::google::myme_dir(config_dir), "calendar_cache.db"@)
                    &&& *final(self) == (CalendarModel { loading: true, error_message: UiMessage::Empty, ..*old(self) })
                },
            },
    {
        let token = match access_token {
            Some(t) => t,
            None => {
                self.error_message = UiMessage::Text(owned("Not authenticated"));
                self.authenticated = false;
                return None;
            },
        };
        if !channel_ready {
            self.error_message = UiMessage::Text(owned("Service channel not ready"));
            return None;
        }
        self.loading = true;
        self.error_message = UiMessage::Empty;
        Some((token, google_cache_path_in(config_dir, "calendar_cache.db")))
    }

    /// Start fetching today's events: returns the token to fetch with.
    pub fn fetch_today_events(&mut self, access_token: Option<String>, channel_ready: bool) -> (r: Option<String>)
        ensures
            match access_token {
                None => {
                    &&& r is None
                    &&& shows(final(self).error_message, "Not authenticated"@)
                    &&& *final(self) == (CalendarModel { error_message: final(self).error_message, authenticated: false, ..*old(self) })
                },
                Some(t) => if !channel_ready {
                    &&& r is None
                    &&& shows(final(self).error_message, "Service channel not ready"@)
                    &&& *final(self) == (CalendarModel { error_message: final(self).error_message, ..*old(self) })
                } else {
                    &&& r == Some(t)
                    &&& *final(self) == (CalendarModel { loading: true, error_message: UiMessage::Empty, ..*old(self) })
                },
            },
    {
        let token = match access_token {
            Some(t) => t,
            None => {
                self.error_message = UiMessage::Text(owned("Not authenticated"));
                self.authenticated = false;
                return None;
            },
        };
        if !channel_ready {
            self.error_message = UiMessage::Text(owned("Service channel not ready"));
            return None;
        }
        self.loading = true;
        self.error_message = UiMessage::Empty;
        Some(token)
    }

    /// Apply the completion of a fetch at time `now` (milliseconds since
    /// the epoch).  Fetched events give the event counts (all, and those
    /// starting today in UTC) and the next event after `now`.  Returns
    /// whether the events or calendars changed.
    pub fn poll_channel(&mut self, msg: CalendarServiceMessage, now: i64) -> (changed: bool)
        requires
            match msg {
                CalendarServiceMessage::FetchEventsDone(Ok(events)) => events@.len() <= i32::MAX,
                _ => true,
            },
        ensures
            match msg {
                CalendarServiceMessage::FetchEventsDone(Ok(events)) => {
                    &&& changed
                    &&& final(self).event_count == events@.len()
                    &&& final(self).today_event_count == count_on_day(events@, utc_day(now as int))
                    &&& match next_event_index(events@, now) {
                        Some(i) => {
                            &&& final(self).next_event_summary@ == summary_text(events@[i].summary@)
                            &&& final(self).next_event_time@ == utc_clock_text(events@[i].start_millis as int)
                        },
                        None => final(self).next_event_summary@.len() == 0 && final(self).next_event_time@.len() == 0,
                    }
                    &&& *final(self) == (CalendarModel {
                        loading: false,
                        error_message: UiMessage::Empty,
                        event_count: final(self).event_count,
                        today_event_count: final(self).today_event_count,
                        next_event_summary: final(self).next_event_summary,
                        next_event_time: final(self).next_event_time,
                        events,
                        ..*old(self)
                    })
                },
                CalendarServiceMessage::FetchCalendarsDone(Ok(calendars)) => {
                    &&& changed
                    &&& *final(self) == (CalendarModel { loading: false, error_message: UiMessage::Empty, calendars, ..*old(self) })
                },
                CalendarServiceMessage::FetchEventsDone(Err(e)) | CalendarServiceMessage::FetchCalendarsDone(Err(e)) => {
                    &&& !changed
                    &&& shows(final(self).error_message, calendar_error_text(e))
                    &&& *final(self) == (CalendarModel { loading: false, error_message: final(self).error_message, ..*old(self) })
                },
            },
    {
        self.loading = false;
        match msg {
            CalendarServiceMessage::FetchEventsDone(Ok(events)) => {
                let today = day_of(now);
                let mut today_count: i32 = 0;
                let mut best: Option<usize> = None;
                let mut i: usize = 0;
                while i < events.len()
                    invariant
                        i <= events@.len() <= i32::MAX,
                        today_count == count_on_day(events@.subrange(0, i as int), today as int),
                        0 <= today_count <= i,
                        today == utc_day(now as int),
                        match best {
                            Some(b) => next_event_index(events@.subrange(0, i as int), now) == Some(b as int) && b < i,
                            None => next_event_index(events@.subrange(0, i as int), now) is None,
                        },
                    decreases events@.len() - i,
                {
                    let ghost pre = events@.subrange(0, i as int);
                    let ghost post = events@.subrange(0, i + 1);
                    assert(post.drop_last() =~= pre);
                    let start = events[i].start_millis;
                    if day_of(start) == today {
                        today_count = today_count + 1;
                    }
                    let replace = start > now && match best {
                        None => true,
                        Some(b) => start < events[b].start_millis,
                    };
                    proof {
                        match best {
                            Some(b) => assert(post[b as int] == events@[b as int]),
                            None => {},
                        }
                    }
                    if replace {
                        best = Some(i);
                    }
                    i = i + 1;
                }
                assert(events@.subrange(0, events@.len() as int) =~= events@);
                match best {
                    Some(b) => {
                        let e = &events[b];
                        let summary = if e.summary.as_str().unicode_len() == 0 {
                            owned("(No title)")
                        } else {
                            owned(e.summary.as_str())
                        };
                        self.next_event_summary = summary;
                        self.next_event_time = clock_text(e.start_millis);
                    },
                    None => {
                        self.next_event_summary = String::new();
                        self.next_event_time = String::new();
                    },
                }
                self.event_count = events.len() as i32;
                self.today_event_count = today_count;
                self.events = events;
                self.error_message = UiMessage::Empty;
                true
            },
            CalendarServiceMessage::FetchCalendarsDone(Ok(calendars)) => {
                self.calendars = calendars;
                self.error_message = UiMessage::Empty;
                true
            },
            CalendarServiceMessage::FetchEventsDone(Err(e)) | CalendarServiceMessage::FetchCalendarsDone(Err(e)) => {
                self.error_message = UiMessage::Text(e.message());
                false
            },
        }
    }
}

/// The next event is upcoming and none starts earlier after `now`; when
/// there is none, every event has started by `now`.  Of events starting at
/// the same time, the first listed is the one shown.
pub proof fn law_next_event_is_the_earliest_upcoming(events: Seq<CalendarEvent>, now: i64)
    ensures
        match next_event_index(events, now) {
            Some(i) => {
                &&& 0 <= i < events.len()
                &&& events[i].start_millis > now
                &&& forall|j: int| 0 <= j < events.len() && events[j].start_millis > now
                    ==> events[i].start_millis <= #[trigger] events[j].start_millis
                &&& forall|j: int| 0 <= j < i && events[j].start_millis > now
                    ==> events[i].start_millis < #[trigger] events[j].start_millis
            },
            None => forall|j: int| 0 <= j < events.len() ==> #[trigger] events[j].start_millis <= now,
        },
    decreases events.len(),
{
    if events.len() > 0 {
        let rest = events.drop_last();
        let n = events.len() - 1;
        let e = events.last();
        law_next_event_is_the_earliest_upcoming(rest, now);
        assert forall|j: int| 0 <= j < rest.len() implies #[trigger] rest[j] == events[j] by {}
        let best = next_event_index(rest, now);
        if e.start_millis > now && (match best {
            None => true,
            Some(b) => e.start_millis < events[b].start_millis,
        }) {
            assert(next_event_index(events, now) == Some(n));
            assert forall|j: int| 0 <= j < events.len() && events[j].start_millis > now
                implies events[n].start_millis <= #[trigger] events[j].start_millis by {
                if j < n {
                    assert(rest[j] == events[j]);
                }
            }
            assert forall|j: int| 0 <= j < n && events[j].start_millis > now
                implies events[n].start_millis < #[trigger] events[j].start_millis by {
                assert(rest[j] == events[j]);
            }
        } else {
            assert(next_event_index(events, now) == best);
            match best {
                Some(b) => {
                    assert(rest[b] == events[b]);
                    assert forall|j: int| 0 <= j < events.len() && events[j].start_millis > now
                        implies events[b].start_millis <= #[trigger] events[j].start_millis by {
                        if j < n {
                            assert(rest[j] == events[j]);
                        }
                    }
                    assert forall|j: int| 0 <= j < b && events[j].start_millis > now
                        implies events[b].start_millis < #[trigger] events[j].start_millis by {
                        assert(rest[j] == events[j]);
                    }
                },
                None => {
                    assert forall|j: int| 0 <= j < events.len() implies #[trigger] events[j].start_millis <= now by {
                        if j < n {
                            assert(rest[j] == events[j]);
                        }
                    }
                },
            }
        }
    }
}

/// No more events start on a day than there are events.
pub proof fn law_today_count_within_total(events: Seq<CalendarEvent>, day: int)
    ensures
        0 <= count_on_day(events, day) <= events.len(),
    decreases events.len(),
{
    if events.len() > 0 {
        law_today_count_within_total(events.drop_last(), day);
    }
}

} // verus!
