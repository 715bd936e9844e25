use myme::weather::geocode::{place_name, resolve_place_name, NominatimAddress};
use myme::weather::location::{
    ip_parse_failed, ip_request_failed, next_location_step, read_ip_answer, LocationStep,
};
use myme::weather::types::LocationError;

/// A location as the weather services hold it.
#[derive(Debug, Clone, PartialEq)]
struct Location {
    latitude: f64,
    longitude: f64,
    city_name: Option<String>,
}

fn empty_address() -> NominatimAddress {
    NominatimAddress {
        city: None,
        town: None,
        village: None,
        municipality: None,
        state_district: None,
        state: None,
        county: None,
        country: None,
    }
}

#[test]
fn test_reverse_geocode_preserves_existing_city() {
    let loc = Location { latitude: 47.6062, longitude: -122.3321, city_name: Some("Seattle".to_string()) };
    // A location that already has a city name keeps it; no lookup answer is used.
    let name = resolve_place_name(loc.city_name.clone(), None);
    assert_eq!(name.as_deref(), Some("Seattle"));
    let mut other = empty_address();
    other.city = Some("Tacoma".to_string());
    let name = resolve_place_name(loc.city_name.clone(), Some(other));
    assert_eq!(name.as_deref(), Some("Seattle"));
}

#[test]
fn test_config_override_returns_immediately() {
    let ovr = Location { latitude: 48.8566, longitude: 2.3522, city_name: Some("Paris".to_string()) };
    let step = next_location_step(Some(ovr), None, None);
    match step {
        LocationStep::Found(loc) => {
            assert!((loc.latitude - 48.8566).abs() < f64::EPSILON);
            assert!((loc.longitude - 2.3522).abs() < f64::EPSILON);
            assert_eq!(loc.city_name.as_deref(), Some("Paris"));
        },
        other => panic!("expected the configured location, got {:?}", other),
    }
}

#[test]
fn test_ip_geolocation_success() {
    let (lat, lon) = read_ip_answer("success", Some(37.7749), Some(-122.4194)).unwrap();
    let loc = Location { latitude: lat, longitude: lon, city_name: Some("San Francisco".to_string()) };
    assert!((loc.latitude - 37.7749).abs() < f64::EPSILON);
    assert!((loc.longitude - (-122.4194)).abs() < f64::EPSILON);
    assert_eq!(loc.city_name.as_deref(), Some("San Francisco"));
}

#[test]
fn test_ip_geolocation_error_status() {
    let err = read_ip_answer::<f64>("fail", None, None).unwrap_err();
    let msg = err.message();
    assert!(msg.contains("fail"), "Error should mention status: {msg}");
    assert_eq!(msg, "Location error: IP geolocation returned status: fail");
}

#[test]
fn test_ip_geolocation_server_error() {
    let err = ip_parse_failed("expected value at line 1 column 1");
    let msg = err.message();
    assert!(msg.contains("parse failed"), "Should fail to parse: {msg}");
}

#[test]
fn ip_answer_missing_coordinates() {
    let err = read_ip_answer::<f64>("success", None, Some(1.0)).unwrap_err();
    assert_eq!(err, LocationError::Other("IP geolocation: missing lat".to_string()));
    let err = read_ip_answer::<f64>("success", Some(1.0), None).unwrap_err();
    assert_eq!(err, LocationError::Other("IP geolocation: missing lon".to_string()));
}

#[test]
fn ip_request_failure_text() {
    let err = ip_request_failed("connection refused");
    assert_eq!(err.message(), "Location error: IP geolocation request failed: connection refused");
}

#[test]
fn location_steps_in_order() {
    let found = Location { latitude: 1.0, longitude: 2.0, city_name: None };
    assert_eq!(next_location_step::<Location>(None, None, None), LocationStep::TryOs);
    assert_eq!(
        next_location_step(None, Some(Ok(found.clone())), None),
        LocationStep::Found(found.clone())
    );
    assert_eq!(
        next_location_step::<Location>(None, Some(Err(LocationError::Timeout)), None),
        LocationStep::TryIp
    );
    assert_eq!(
        next_location_step(None, Some(Err(LocationError::Timeout)), Some(Ok(found.clone()))),
        LocationStep::Found(found)
    );
    assert_eq!(
        next_location_step::<Location>(
            None,
            Some(Err(LocationError::Timeout)),
            Some(Err(LocationError::Other("x".to_string())))
        ),
        LocationStep::Failed(LocationError::ServiceUnavailable)
    );
}

#[test]
fn place_name_prefers_city_then_adds_state() {
    let mut a = empty_address();
    a.city = Some("Seattle".to_string());
    a.state = Some("Washington".to_string());
    a.country = Some("United States".to_string());
    assert_eq!(place_name(&a).as_deref(), Some("Seattle, Washington"));
    assert_eq!(resolve_place_name(None, Some(a)).as_deref(), Some("Seattle, Washington"));
}

#[test]
fn place_name_falls_back_to_country_and_skips_repeats() {
    let mut a = empty_address();
    a.village = Some("Hallstatt".to_string());
    a.state = Some("".to_string());
    a.country = Some("Austria".to_string());
    assert_eq!(place_name(&a).as_deref(), Some("Hallstatt, Austria"));

    let mut b = empty_address();
    b.state = Some("Berlin".to_string());
    b.country = Some("Germany".to_string());
    // The state is the place itself, so the country is added.
    assert_eq!(place_name(&b).as_deref(), Some("Berlin, Germany"));

    let mut c = empty_address();
    c.country = Some("Monaco".to_string());
    assert_eq!(place_name(&c).as_deref(), Some("Monaco"));

    assert_eq!(place_name(&empty_address()), None);
    assert_eq!(resolve_place_name(None, None), None);
}
