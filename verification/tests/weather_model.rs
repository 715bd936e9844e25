use myme::models::weather::{
    cached_for_display, CalendarDay, ClockTime, DaySummary, HourSummary, WeatherModel, WeatherOpState,
};
use myme::models::UiMessage;
use myme::services::weather::WeatherError;
use myme::dates::Moment;
use myme::weather::cache::{WeatherCache, EXPIRED_THRESHOLD_NANOS, STALE_THRESHOLD_NANOS};
use myme::weather::types::{TemperatureUnit, WeatherCondition};

fn day(precip: u8, condition: WeatherCondition) -> DaySummary {
    DaySummary {
        date: CalendarDay { year: 2024, month: 3, day: 5 },
        precipitation_chance: precip,
        condition,
        sunrise: ClockTime { hour: 6, minute: 42 },
        sunset: ClockTime { hour: 18, minute: 5 },
        hourly: vec![
            HourSummary { time: ClockTime { hour: 0, minute: 0 }, precipitation_chance: 10, condition: WeatherCondition::Clear },
            HourSummary { time: ClockTime { hour: 13, minute: 0 }, precipitation_chance: 80, condition: WeatherCondition::Thunderstorm },
        ],
    }
}

#[test]
fn refresh_without_services_is_reported() {
    let mut m = WeatherModel::new();
    let e = m.refresh(false, None, true);
    assert!(e.error_occurred);
    assert!(!e.request_fetch);
    assert_eq!(m.error_message, UiMessage::Text("Weather service not initialized".to_string()));
}

#[test]
fn fresh_cache_is_shown_without_fetching() {
    let mut m = WeatherModel::new();
    let e = m.refresh(true, Some((vec![day(30, WeatherCondition::Rain)], false)), true);
    assert!(e.show_cached);
    assert!(!e.request_fetch);
    assert!(m.has_data);
    assert!(!m.is_stale);
    assert_eq!(m.forecast_count(), 1);
    assert_eq!(m.get_forecast_precip(0), 30);
    assert_eq!(m.get_forecast_condition(0), "Rain");
    assert_eq!(m.get_forecast_icon(0), "cloud_rain");
    assert_eq!(m.hourly_count(0), 2);
    assert_eq!(m.get_hourly_precip(0, 1), 80);
    assert_eq!(m.get_hourly_icon(0, 1), "cloud_lightning");
    assert_eq!(m.get_hourly_precip(0, 9), 0);
    assert_eq!(m.get_forecast_precip(4), 0);
}

#[test]
fn stale_cache_is_shown_and_refreshed() {
    let mut m = WeatherModel::new();
    let e = m.refresh(true, Some((vec![day(5, WeatherCondition::Fog)], true)), true);
    assert!(e.show_cached);
    assert!(e.request_fetch);
    assert!(m.is_stale);
    assert!(m.loading);
    assert_eq!(m.op_state, WeatherOpState::Fetching);
    // A fetch in flight makes a second refresh a no-op.
    let again = m.refresh(true, None, true);
    assert!(!again.request_fetch && !again.error_occurred);

    let e = m.poll_channel(Ok(vec![day(0, WeatherCondition::Clear), day(60, WeatherCondition::Snow)]));
    assert!(e.show_fetched);
    assert!(!m.is_stale);
    assert!(!m.loading);
    assert_eq!(m.forecast_count(), 2);
    assert_eq!(m.get_forecast_condition(1), "Snow");
}

#[test]
fn failed_fetch_keeps_data_and_marks_it_stale() {
    let mut m = WeatherModel::new();
    m.refresh(true, None, true);
    m.poll_channel(Ok(vec![day(20, WeatherCondition::Cloudy)]));
    m.refresh(true, None, true);
    let e = m.poll_channel(Err(WeatherError::Network("offline".to_string())));
    assert!(e.error_occurred);
    assert!(m.is_stale);
    assert_eq!(m.forecast_count(), 1);
    assert!(matches!(m.error_message, UiMessage::App(_)));
    assert_eq!(m.op_state, WeatherOpState::Idle);
}

#[test]
fn channel_not_ready() {
    let mut m = WeatherModel::new();
    let e = m.refresh(true, None, false);
    assert!(e.error_occurred);
    assert!(!e.request_fetch);
    assert_eq!(m.error_message, UiMessage::Text("Service channel not ready".to_string()));
}

#[test]
fn temperature_units_by_name() {
    let mut m = WeatherModel::new();
    assert_eq!(m.set_temperature_unit("celsius"), None);
    m.ensure_initialized(true);
    assert_eq!(m.set_temperature_unit("Celsius"), Some(TemperatureUnit::Celsius));
    assert_eq!(m.set_temperature_unit("FAHRENHEIT"), Some(TemperatureUnit::Fahrenheit));
    assert_eq!(m.set_temperature_unit("kelvin"), Some(TemperatureUnit::Auto));
}

#[test]
fn cache_offers_data_until_it_expires() {
    let at = |nanos: i64| Moment { secs: nanos.div_euclid(1_000_000_000), nanos: nanos.rem_euclid(1_000_000_000) as u32 };
    let t: i64 = 1_700_000_000_000_000_000;
    let now = at(t);
    let fresh = WeatherCache::with_contents("/c/weather_cache.json".to_string(), Some((7u32, at(t - 1000))));
    assert_eq!(cached_for_display(Some(&fresh), now), Some((&7, false)));
    let stale = WeatherCache::with_contents("/c/w.json".to_string(), Some((7u32, at(t - STALE_THRESHOLD_NANOS - 1))));
    assert_eq!(cached_for_display(Some(&stale), now), Some((&7, true)));
    let expired = WeatherCache::with_contents("/c/w.json".to_string(), Some((7u32, at(t - EXPIRED_THRESHOLD_NANOS - 1))));
    assert_eq!(cached_for_display(Some(&expired), now), None);
    let empty: WeatherCache<u32> = WeatherCache::new("/c");
    assert_eq!(cached_for_display(Some(&empty), now), None);
    assert_eq!(cached_for_display::<u32>(None, now), None);
}

#[test]
fn forecast_days_and_times() {
    let mut m = WeatherModel::new();
    m.refresh(true, Some((vec![day(40, WeatherCondition::Drizzle)], false)), true);
    assert_eq!(m.get_forecast_date(0), "2024-03-05");
    assert_eq!(m.get_forecast_day(0), "Tue");
    assert_eq!(m.get_forecast_sunrise(0), "06:42");
    assert_eq!(m.get_forecast_sunset(0), "18:05");
    assert_eq!(m.get_hourly_time(0, 0), "00:00");
    assert_eq!(m.get_hourly_time(0, 1), "13:00");
    assert_eq!(m.get_hourly_time(0, 2), "");
    assert_eq!(m.get_forecast_date(1), "");
    assert_eq!(m.get_forecast_day(-1), "");
    // Today's figures come from the first day.
    assert_eq!(m.precipitation_chance, 40);
    assert_eq!(m.sunrise, "06:42");
    assert_eq!(m.sunset, "18:05");
}

#[test]
fn forecast_dates_follow_the_calendar() {
    let dated = |year: i32, month: u32, d: u32| {
        let mut s = day(0, WeatherCondition::Clear);
        s.date = CalendarDay { year, month, day: d };
        s
    };
    let mut m = WeatherModel::new();
    m.refresh(
        true,
        Some((
            vec![
                dated(2024, 2, 29),
                dated(2023, 2, 29),
                dated(999, 12, 31),
                dated(1970, 1, 1),
                dated(2000, 13, 1),
                dated(-5, 6, 1),
            ],
            false,
        )),
        true,
    );
    assert_eq!(m.get_forecast_date(0), "2024-02-29");
    assert_eq!(m.get_forecast_day(0), "Thu");
    // 2023 is not a leap year.
    assert_eq!(m.get_forecast_date(1), "");
    assert_eq!(m.get_forecast_day(1), "");
    assert_eq!(m.get_forecast_date(2), "0999-12-31");
    assert_eq!(m.get_forecast_date(3), "1970-01-01");
    assert_eq!(m.get_forecast_day(3), "Thu");
    assert_eq!(m.get_forecast_date(4), "");
    assert_eq!(m.get_forecast_date(5), "-0005-06-01");
}
