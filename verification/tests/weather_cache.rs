use myme::dates::Moment;
use myme::weather::cache::{WeatherCache, EXPIRED_THRESHOLD_NANOS, STALE_THRESHOLD_NANOS};

/// The current instant, `secs_ago` seconds back.
fn ago(secs_ago: i64) -> Moment {
    let d = chrono::Utc::now();
    Moment { secs: d.timestamp() - secs_ago, nanos: d.timestamp_subsec_nanos() }
}

/// The instant `nanos` nanoseconds after the epoch (not negative).
fn at(nanos: i64) -> Moment {
    Moment { secs: nanos.div_euclid(1_000_000_000), nanos: nanos.rem_euclid(1_000_000_000) as u32 }
}

#[test]
fn test_cache_fresh_data_not_stale() {
    let mut cache: WeatherCache<&str> = WeatherCache::new("/tmp/myme-test");
    cache.update("data", ago(0));
    assert!(!cache.is_stale());
    assert!(!cache.is_expired());
}

#[test]
fn test_cache_stale_after_15_minutes() {
    let mut cache: WeatherCache<&str> = WeatherCache::new("/tmp/myme-test");
    cache.update("data", ago(16 * 60));
    assert!(cache.is_stale());
    assert!(!cache.is_expired());
}

#[test]
fn test_cache_expired_after_2_hours() {
    let mut cache: WeatherCache<&str> = WeatherCache::new("/tmp/myme-test");
    cache.update("data", ago(3 * 3600));
    assert!(cache.is_stale());
    assert!(cache.is_expired());
}

#[test]
fn test_cache_empty_is_stale_and_expired() {
    let cache: WeatherCache<&str> = WeatherCache::new("/tmp/myme-test");
    assert!(cache.is_stale());
    assert!(cache.is_expired());
    assert!(!cache.has_data());
}

#[test]
fn test_cache_age_minutes() {
    let mut cache: WeatherCache<&str> = WeatherCache::new("/tmp/myme-test");
    cache.update("data", ago(10 * 60));
    let age = cache.age_minutes().unwrap();
    assert!((10..=11).contains(&age));
}

#[test]
fn cache_file_lives_in_the_config_dir() {
    let cache: WeatherCache<&str> = WeatherCache::new("/home/u/.config/myme");
    assert_eq!(cache.cache_path(), "/home/u/.config/myme/weather_cache.json");
    let cache2: WeatherCache<&str> = WeatherCache::new("/home/u/.config/myme/");
    assert_eq!(cache2.cache_path(), "/home/u/.config/myme/weather_cache.json");
}

#[test]
fn staleness_thresholds_at_fixed_times() {
    let t0: i64 = 1_000_000_000_000;
    let mut cache: WeatherCache<u32> = WeatherCache::new("d");
    cache.update(7, at(t0));
    assert_eq!(cache.get(), Some(&7));
    assert_eq!(cache.fetched_at(), Some(at(t0)));
    assert!(!cache.is_stale_at(at(t0 + STALE_THRESHOLD_NANOS)));
    // One nanosecond past the threshold is already stale.
    assert!(cache.is_stale_at(at(t0 + STALE_THRESHOLD_NANOS + 1)));
    assert!(!cache.is_expired_at(at(t0 + EXPIRED_THRESHOLD_NANOS)));
    assert!(cache.is_expired_at(at(t0 + EXPIRED_THRESHOLD_NANOS + 1)));
    assert_eq!(cache.age_minutes_at(at(t0 + 125_000_000_000)), Some(2));
    assert_eq!(cache.age_minutes_at(at(t0 - 125_000_000_000)), Some(-2));
    assert_eq!(cache.age_minutes_at(at(t0 + 59_999_999_999)), Some(0));
    assert_eq!(cache.age_minutes_at(at(t0 + 60_000_000_000)), Some(1));
}

#[test]
fn expired_cache_is_also_stale() {
    let mut cache: WeatherCache<u32> = WeatherCache::new("d");
    cache.update(1, at(0));
    for now in [0i64, 900_000_000_001, 7_200_000_000_001, 100_000_000_000_000] {
        if cache.is_expired_at(at(now)) {
            assert!(cache.is_stale_at(at(now)));
        }
    }
}

#[test]
fn cache_with_loaded_contents() {
    let cache = WeatherCache::with_contents("p.json".to_string(), Some((5u8, at(42))));
    assert!(cache.has_data());
    assert_eq!(cache.cache_path(), "p.json");
    assert_eq!(cache.fetched_at(), Some(at(42)));
}
