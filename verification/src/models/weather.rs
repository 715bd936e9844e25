use vstd::prelude::*;

use crate::models::{valid_index, UiMessage};
use crate::services::weather::{weather_reported_as, WeatherError};
use crate::dates::{date_format, date_formatted, format_date, Moment};
use crate::text::{concat, concat3, decimal_text, i64_to_string, lowercase, owned, str_eq, to_lowercase};
use crate::weather::cache::{expired_at, stale_at, WeatherCache};
use crate::weather::types::{condition_description, condition_icon, TemperatureUnit, WeatherCondition};

verus! {

/// A time of day.
#[derive(Debug, Clone, Copy, PartialEq, Eq, Structural)]
pub struct ClockTime {
    pub hour: u8,
    pub minute: u8,
}

/// A calendar day.
#[derive(Debug, Clone, Copy, PartialEq, Eq, Structural)]
pub struct CalendarDay {
    pub year: i32,
    pub month: u32,
    pub day: u32,
}

/// One hour of a day's forecast, as the model shows it.
#[derive(Debug, Clone, Copy, PartialEq, Eq, Structural)]
pub struct HourSummary {
    pub time: ClockTime,
    pub precipitation_chance: u8,
    pub condition: WeatherCondition,
}

/// One day of the forecast, as the model shows it.
#[derive(Debug, Clone, PartialEq, Eq)]
pub struct DaySummary {
    pub date: CalendarDay,
    pub precipitation_chance: u8,
    pub condition: WeatherCondition,
    pub sunrise: ClockTime,
    pub sunset: ClockTime,
    pub hourly: Vec<HourSummary>,
}

/// Operation in flight; only one runs at a time.
#[derive(Debug, Clone, Copy, PartialEq, Eq, Structural)]
pub enum WeatherOpState {
    Idle,
    Fetching,
}

/// What a weather model step asks of the caller.
#[derive(Debug, Clone, Copy, PartialEq, Eq, Structural)]
pub struct WeatherEffect {
    /// The cached data is shown (its properties are set from it).
    pub show_cached: bool,
    /// The fetched data is shown and written to the cache.
    pub show_fetched: bool,
    /// A fetch is started in the background.
    pub request_fetch: bool,
    pub weather_changed: bool,
    pub error_occurred: bool,
}

/// A step that asks nothing and signals nothing.
pub open spec fn no_weather_effect() -> WeatherEffect {
    WeatherEffect {
        show_cached: false,
        show_fetched: false,
        request_fetch: false,
        weather_changed: false,
        error_occurred: false,
    }
}

/// The cached data that can be shown at time `now`, with whether it is
/// stale: only a cache that is not expired offers its data.
pub open spec fn usable_cache<D>(contents: Option<(D, Moment)>, now: Moment) -> Option<(D, bool)> {
    match contents {
        Some((d, t)) => if expired_at(t, now) { None } else { Some((d, stale_at(t, now))) },
        None => None,
    }
}

/// The cached data that can be shown at time `now`, with whether it is
/// stale; `None` without a cache, or with one that is empty or expired.
pub fn cached_for_display<D>(cache: Option<&WeatherCache<D>>, now: Moment) -> (r: Option<(&D, bool)>)
    ensures
        match cache {
            None => r is None,
            Some(c) => match usable_cache(c.contents(), now) {
                Some((d, stale)) => r matches Some((x, s)) && *x == d && s == stale,
                None => r is None,
            },
        },
{
    match cache {
        None => None,
        Some(c) => {
            if c.is_expired_at(now) {
                None
            } else {
                match c.get() {
                    Some(d) => Some((d, c.is_stale_at(now))),
                    None => None,
                }
            }
        },
    }
}

/// The unit a unit name from the view denotes, compared case-insensitively;
/// unknown names mean `Auto`.
pub open spec fn unit_of_name(s: Seq<char>) -> TemperatureUnit {
    if lowercase(s) == "celsius"@ {
        TemperatureUnit::Celsius
    } else if lowercase(s) == "fahrenheit"@ {
        TemperatureUnit::Fahrenheit
    } else {
        TemperatureUnit::Auto
    }
}

/// A number written with at least two digits, as `%H` and `%M` write
/// hours and minutes.
pub open spec fn two_digit_text(n: int) -> Seq<char> {
    if 0 <= n < 10 { "0"@ + decimal_text(n) } else { decimal_text(n) }
}

/// A time of day as `%H:%M`.
pub open spec fn hm_text(t: ClockTime) -> Seq<char> {
    two_digit_text(t.hour as int) + ":"@ + two_digit_text(t.minute as int)
}

/// A date written with the format `fmt`, empty when it is not a date.
pub open spec fn date_text(d: CalendarDay, fmt: Seq<char>) -> Seq<char> {
    match date_formatted(d.year, d.month, d.day, fmt) {
        Some(t) => t,
        None => Seq::empty(),
    }
}

/// A number with at least two digits.
fn two_digits_of(n: u8) -> (r: String)
    ensures
        r@ == two_digit_text(n as int),
{
    let t = i64_to_string(n as i64);
    if n < 10 { concat("0", t.as_str()) } else { t }
}

/// A time of day as `%H:%M`.
fn clock_time(t: ClockTime) -> (r: String)
    ensures
        r@ == hm_text(t),
{
    concat3(two_digits_of(t.hour).as_str(), ":", two_digits_of(t.minute).as_str())
}

/// A date written with `fmt`, empty when it is not a date.
fn date_string(d: CalendarDay, fmt: &str) -> (r: String)
    requires
        date_format(fmt@),
    ensures
        r@ == date_text(d, fmt@),
{
    match format_date(d.year, d.month, d.day, fmt) {
        Some(t) => t,
        None => String::new(),
    }
}

/// State of the weather view.
#[derive(Debug, Clone)]
pub struct WeatherModel {
    pub loading: bool,
    pub has_data: bool,
    pub is_stale: bool,
    pub error_message: UiMessage,
    /// The forecast shown, day by day.
    pub forecast: Option<Vec<DaySummary>>,
    /// Today's chance of precipitation, sunrise and sunset.
    pub precipitation_chance: i32,
    pub sunrise: String,
    pub sunset: String,
    /// Whether the weather provider (and cache) are attached.
    pub has_provider: bool,
    pub op_state: WeatherOpState,
}

/// The model after attaching the weather services, if they are missing and
/// available.
pub open spec fn weather_initialized(old: WeatherModel, services_available: bool) -> WeatherModel {
    WeatherModel { has_provider: old.has_provider || services_available, ..old }
}

/// The forecast days shown by `m` (none without data).
pub open spec fn days_of(m: WeatherModel) -> Seq<DaySummary> {
    match m.forecast {
        Some(days) => days@,
        None => Seq::empty(),
    }
}

/// Today's figures of `new` are those of the first day of its forecast;
/// without a first day they are those of `old`.
pub open spec fn today_figures(old: WeatherModel, new: WeatherModel) -> bool {
    let days = days_of(new);
    if days.len() > 0 {
        &&& new.precipitation_chance == days[0].precipitation_chance as i32
        &&& new.sunrise@ == hm_text(days[0].sunrise)
        &&& new.sunset@ == hm_text(days[0].sunset)
    } else {
        new.precipitation_chance == old.precipitation_chance && new.sunrise == old.sunrise && new.sunset == old.sunset
    }
}

/// `new` shows the data whose forecast it holds: it has data, and today's
/// figures come from the first day; nothing else of `old` changes.
pub open spec fn showing(old: WeatherModel, new: WeatherModel) -> bool {
    &&& new.forecast is Some
    &&& today_figures(old, new)
    &&& new == (WeatherModel {
        forecast: new.forecast,
        has_data: true,
        precipitation_chance: new.precipitation_chance,
        sunrise: new.sunrise,
        sunset: new.sunset,
        ..old
    })
}

impl WeatherModel {
    /// A model without services or data.
    pub fn new() -> (r: Self)
        ensures
            !r.loading && !r.has_data && !r.is_stale && !r.has_provider,
            r.error_message == UiMessage::Empty,
            r.forecast is None,
            r.precipitation_chance == 0 && r.sunrise@.len() == 0 && r.sunset@.len() == 0,
            r.op_state == WeatherOpState::Idle,
    {
        WeatherModel {
            loading: false,
            has_data: false,
            is_stale: false,
            error_message: UiMessage::Empty,
            forecast: None,
            precipitation_chance: 0,
            sunrise: String::new(),
            sunset: String::new(),
            has_provider: false,
            op_state: WeatherOpState::Idle,
        }
    }

    /// Attach the weather services if they are missing and available.
    pub fn ensure_initialized(&mut self, services_available: bool)
        ensures
            *final(self) == weather_initialized(*old(self), services_available),
    {
        if !self.has_provider && services_available {
            self.has_provider = true;
        }
    }

    /// Show weather data: today's figures come from its first day, and its
    /// forecast is kept for the forecast getters.
    fn show_data(&mut self, days: Vec<DaySummary>)
        ensures
            final(self).forecast == Some(days),
            showing(*old(self), *final(self)),
    {
        if days.len() > 0 {
            self.precipitation_chance = days[0].precipitation_chance as i32;
            self.sunrise = clock_time(days[0].sunrise);
            self.sunset = clock_time(days[0].sunset);
        }
        self.forecast = Some(days);
        self.has_data = true;
    }

    /// Refresh the weather.  `cached` is what the cache offers (see
    /// `cached_for_display`): its forecast and whether it is stale.  Fresh
    /// cached data is shown and nothing is fetched; stale cached data is
    /// shown and a fetch is started as well.
    pub fn refresh(&mut self, services_available: bool, cached: Option<(Vec<DaySummary>, bool)>, channel_ready: bool) -> (e: WeatherEffect)
        ensures
            ({
                let m = weather_initialized(*old(self), services_available);
                if m.op_state != WeatherOpState::Idle {
                    *final(self) == m && e == no_weather_effect()
                } else if !m.has_provider {
                    &&& final(self).error_message matches UiMessage::Text(t) && t@ == "Weather service not initialized"@
                    &&& *final(self) == (WeatherModel { error_message: final(self).error_message, ..m })
                    &&& e == (WeatherEffect { error_occurred: true, ..no_weather_effect() })
                } else {
                    let shown = match cached {
                        Some((days, stale)) => WeatherModel { forecast: Some(days), has_data: true, is_stale: stale,
                            precipitation_chance: final(self).precipitation_chance, sunrise: final(self).sunrise,
                            sunset: final(self).sunset, ..m },
                        None => m,
                    };
                    let from_cache = cached is Some;
                    &&& from_cache ==> today_figures(m, *final(self))
                    &&& if cached matches Some((_, stale)) && !stale {
                        &&& *final(self) == shown
                        &&& e == (WeatherEffect { show_cached: true, weather_changed: true, ..no_weather_effect() })
                    } else if !channel_ready {
                        &&& final(self).error_message matches UiMessage::Text(t) && t@ == "Service channel not ready"@
                        &&& *final(self) == (WeatherModel { error_message: final(self).error_message, ..shown })
                        &&& e == (WeatherEffect { show_cached: from_cache, weather_changed: from_cache, error_occurred: true, ..no_weather_effect() })
                    } else {
                        &&& *final(self) == (WeatherModel {
                            loading: true,
                            error_message: UiMessage::Empty,
                            op_state: WeatherOpState::Fetching,
                            ..shown
                        })
                        &&& e == (WeatherEffect { show_cached: from_cache, weather_changed: from_cache, request_fetch: true, ..no_weather_effect() })
                    }
                }
            }),
    {
        self.ensure_initialized(services_available);
        let quiet = WeatherEffect {
            show_cached: false,
            show_fetched: false,
            request_fetch: false,
            weather_changed: false,
            error_occurred: false,
        };
        match self.op_state {
            WeatherOpState::Idle => {},
            WeatherOpState::Fetching => return quiet,
        }
        if !self.has_provider {
            self.error_message = UiMessage::Text(owned("Weather service not initialized"));
            return WeatherEffect { error_occurred: true, ..quiet };
        }
        let mut e = quiet;
        match cached {
            Some((days, stale)) => {
                self.show_data(days);
                self.is_stale = stale;
                e = WeatherEffect { show_cached: true, weather_changed: true, ..quiet };
                if !stale {
                    return e;
                }
            },
            None => {},
        }
        if !channel_ready {
            self.error_message = UiMessage::Text(owned("Service channel not ready"));
            return WeatherEffect { error_occurred: true, ..e };
        }
        self.loading = true;
        self.error_message = UiMessage::Empty;
        self.op_state = WeatherOpState::Fetching;
        WeatherEffect { request_fetch: true, ..e }
    }

    /// Apply the completion of a fetch: new data is shown (and cached);
    /// a failure is reported, and data already shown is marked stale.
    pub fn poll_channel(&mut self, result: Result<Vec<DaySummary>, WeatherError>) -> (e: WeatherEffect)
        ensures
            match result {
                Ok(days) => {
                    &&& today_figures(*old(self), *final(self))
                    &&& *final(self) == (WeatherModel {
                        loading: false,
                        op_state: WeatherOpState::Idle,
                        error_message: UiMessage::Empty,
                        forecast: Some(days),
                        has_data: true,
                        is_stale: false,
                        precipitation_chance: final(self).precipitation_chance,
                        sunrise: final(self).sunrise,
                        sunset: final(self).sunset,
                        ..*old(self)
                    })
                    &&& e == (WeatherEffect { show_fetched: true, weather_changed: true, ..no_weather_effect() })
                },
                Err(err) => {
                    &&& final(self).error_message matches UiMessage::App(a) && weather_reported_as(err, a)
                    &&& *final(self) == (WeatherModel {
                        loading: false,
                        op_state: WeatherOpState::Idle,
                        error_message: final(self).error_message,
                        is_stale: old(self).is_stale || old(self).has_data,
                        ..*old(self)
                    })
                    &&& e == (WeatherEffect { error_occurred: true, ..no_weather_effect() })
                },
            },
    {
        self.loading = false;
        self.op_state = WeatherOpState::Idle;
        let quiet = WeatherEffect {
            show_cached: false,
            show_fetched: false,
            request_fetch: false,
            weather_changed: false,
            error_occurred: false,
        };
        match result {
            Ok(days) => {
                self.error_message = UiMessage::Empty;
                self.show_data(days);
                self.is_stale = false;
                WeatherEffect { show_fetched: true, weather_changed: true, ..quiet }
            },
            Err(err) => {
                self.error_message = UiMessage::App(err.to_app_error());
                if self.has_data {
                    self.is_stale = true;
                }
                WeatherEffect { error_occurred: true, ..quiet }
            },
        }
    }

    /// The unit chosen by name, when a provider is attached: the provider
    /// is then rebuilt with that unit and the weather refreshed.  `None`
    /// without a provider.
    pub fn set_temperature_unit(&self, unit: &str) -> (r: Option<TemperatureUnit>)
        ensures
            self.has_provider ==> r == Some(unit_of_name(unit@)),
            !self.has_provider ==> r is None,
    {
        let name = to_lowercase(unit);
        let u = if str_eq(name.as_str(), "celsius") {
            TemperatureUnit::Celsius
        } else if str_eq(name.as_str(), "fahrenheit") {
            TemperatureUnit::Fahrenheit
        } else {
            TemperatureUnit::Auto
        };
        if self.has_provider {
            Some(u)
        } else {
            None
        }
    }

    /// The forecast day at `index`, if there is one.
    fn day(&self, index: i32) -> (r: Option<&DaySummary>)
        ensures
            valid_index(index, days_of(*self).len()) ==> r == Some(&days_of(*self)[index as int]),
            !valid_index(index, days_of(*self).len()) ==> r is None,
    {
        match &self.forecast {
            Some(days) => {
                if index < 0 || index as usize >= days.len() {
                    None
                } else {
                    Some(&days[index as usize])
                }
            },
            None => None,
        }
    }

    /// The hour `hour_index` of forecast day `day_index`, if there is one.
    fn hour(&self, day_index: i32, hour_index: i32) -> (r: Option<HourSummary>)
        ensures
            ({
                let days = days_of(*self);
                if valid_index(day_index, days.len()) && valid_index(hour_index, days[day_index as int].hourly@.len()) {
                    r == Some(days[day_index as int].hourly@[hour_index as int])
                } else {
                    r is None
                }
            }),
    {
        match self.day(day_index) {
            Some(d) => {
                if hour_index < 0 || hour_index as usize >= d.hourly.len() {
                    None
                } else {
                    Some(d.hourly[hour_index as usize])
                }
            },
            None => None,
        }
    }

    /// Number of forecast days; 0 without data.
    pub fn forecast_count(&self) -> (r: i32)
        ensures
            r == days_of(*self).len() as i32,
    {
        match &self.forecast {
            Some(days) => days.len() as i32,
            None => 0,
        }
    }

    /// Chance of precipitation (percent) of forecast day `index`; 0 for an
    /// invalid index.
    pub fn get_forecast_precip(&self, index: i32) -> (r: i32)
        ensures
            valid_index(index, days_of(*self).len()) ==> r == days_of(*self)[index as int].precipitation_chance,
            !valid_index(index, days_of(*self).len()) ==> r == 0,
    {
        match self.day(index) {
            Some(d) => d.precipitation_chance as i32,
            None => 0,
        }
    }

    /// Description of the condition of forecast day `index`; empty for an
    /// invalid index.
    pub fn get_forecast_condition(&self, index: i32) -> (r: String)
        ensures
            valid_index(index, days_of(*self).len()) ==> r@ == condition_description(days_of(*self)[index as int].condition),
            !valid_index(index, days_of(*self).len()) ==> r@.len() == 0,
    {
        match self.day(index) {
            Some(d) => owned(d.condition.description()),
            None => String::new(),
        }
    }

    /// Icon of the condition of forecast day `index`; empty for an invalid
    /// index.
    pub fn get_forecast_icon(&self, index: i32) -> (r: String)
        ensures
            valid_index(index, days_of(*self).len()) ==> r@ == condition_icon(days_of(*self)[index as int].condition),
            !valid_index(index, days_of(*self).len()) ==> r@.len() == 0,
    {
        match self.day(index) {
            Some(d) => owned(d.condition.icon_name()),
            None => String::new(),
        }
    }

    /// Number of hourly entries of forecast day `day_index`; 0 for an
    /// invalid index.
    pub fn hourly_count(&self, day_index: i32) -> (r: i32)
        ensures
            valid_index(day_index, days_of(*self).len()) ==> r == days_of(*self)[day_index as int].hourly@.len() as i32,
            !valid_index(day_index, days_of(*self).len()) ==> r == 0,
    {
        match self.day(day_index) {
            Some(d) => d.hourly.len() as i32,
            None => 0,
        }
    }

    /// Date of forecast day `index` as `%Y-%m-%d`; empty for an invalid index.
    pub fn get_forecast_date(&self, index: i32) -> (r: String)
        ensures
            valid_index(index, days_of(*self).len()) ==> r@ == date_text(days_of(*self)[index as int].date, "%Y-%m-%d"@),
            !valid_index(index, days_of(*self).len()) ==> r@.len() == 0,
    {
        match self.day(index) {
            Some(d) => date_string(d.date, "%Y-%m-%d"),
            None => String::new(),
        }
    }

    /// Abbreviated weekday name (`%a`) of forecast day `index`; empty for an
    /// invalid index.
    pub fn get_forecast_day(&self, index: i32) -> (r: String)
        ensures
            valid_index(index, days_of(*self).len()) ==> r@ == date_text(days_of(*self)[index as int].date, "%a"@),
            !valid_index(index, days_of(*self).len()) ==> r@.len() == 0,
    {
        match self.day(index) {
            Some(d) => date_string(d.date, "%a"),
            None => String::new(),
        }
    }

    /// Sunrise of forecast day `index` as `%H:%M`; empty for an invalid index.
    pub fn get_forecast_sunrise(&self, index: i32) -> (r: String)
        ensures
            valid_index(index, days_of(*self).len()) ==> r@ == hm_text(days_of(*self)[index as int].sunrise),
            !valid_index(index, days_of(*self).len()) ==> r@.len() == 0,
    {
        match self.day(index) {
            Some(d) => clock_time(d.sunrise),
            None => String::new(),
        }
    }

    /// Sunset of forecast day `index` as `%H:%M`; empty for an invalid index.
    pub fn get_forecast_sunset(&self, index: i32) -> (r: String)
        ensures
            valid_index(index, days_of(*self).len()) ==> r@ == hm_text(days_of(*self)[index as int].sunset),
            !valid_index(index, days_of(*self).len()) ==> r@.len() == 0,
    {
        match self.day(index) {
            Some(d) => clock_time(d.sunset),
            None => String::new(),
        }
    }

    /// Time of an hourly entry as `%H:%M`; empty for invalid indices.
    pub fn get_hourly_time(&self, day_index: i32, hour_index: i32) -> (r: String)
        ensures
            ({
                let days = days_of(*self);
                if valid_index(day_index, days.len()) && valid_index(hour_index, days[day_index as int].hourly@.len()) {
                    r@ == hm_text(days[day_index as int].hourly@[hour_index as int].time)
                } else {
                    r@.len() == 0
                }
            }),
    {
        match self.hour(day_index, hour_index) {
            Some(h) => clock_time(h.time),
            None => String::new(),
        }
    }

    /// Icon of an hourly entry; empty for invalid indices.
    pub fn get_hourly_icon(&self, day_index: i32, hour_index: i32) -> (r: String)
        ensures
            ({
                let days = days_of(*self);
                if valid_index(day_index, days.len()) && valid_index(hour_index, days[day_index as int].hourly@.len()) {
                    r@ == condition_icon(days[day_index as int].hourly@[hour_index as int].condition)
                } else {
                    r@.len() == 0
                }
            }),
    {
        match self.hour(day_index, hour_index) {
            Some(h) => owned(h.condition.icon_name()),
            None => String::new(),
        }
    }

    /// Chance of precipitation (percent) of an hourly entry; 0 for invalid
    /// indices.
    pub fn get_hourly_precip(&self, day_index: i32, hour_index: i32) -> (r: i32)
        ensures
            ({
                let days = days_of(*self);
                if valid_index(day_index, days.len()) && valid_index(hour_index, days[day_index as int].hourly@.len()) {
                    r == days[day_index as int].hourly@[hour_index as int].precipitation_chance
                } else {
                    r == 0
                }
            }),
    {
        match self.hour(day_index, hour_index) {
            Some(h) => h.precipitation_chance as i32,
            None => 0,
        }
    }
}

} // verus!
