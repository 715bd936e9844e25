use vstd::prelude::*;

use crate::text::{concat, str_eq};
use crate::weather::types::LocationError;

verus! {

/// The next step of finding the current location, which tries in turn the
/// location set in the configuration, the operating system's location
/// service and IP geolocation.
#[derive(Debug, Clone, PartialEq, Eq)]
pub enum LocationStep<L> {
    /// The location is known.
    Found(L),
    /// Ask the operating system's location service.
    TryOs,
    /// Ask the IP geolocation service.
    TryIp,
    /// Every method failed.
    Failed(LocationError),
}

/// Decide the next step from what is known so far: the configured
/// location, and the answers of the OS service and of IP geolocation once
/// they were asked (`None` before that).
pub fn next_location_step<L>(
    config_override: Option<L>,
    os_result: Option<Result<L, LocationError>>,
    ip_result: Option<Result<L, LocationError>>,
) -> (r: LocationStep<L>)
    ensures
        match config_override {
            Some(l) => r == LocationStep::Found(l),
            None => match os_result {
                None => r == LocationStep::<L>::TryOs,
                Some(Ok(l)) => r == LocationStep::Found(l),
                Some(Err(_)) => match ip_result {
                    None => r == LocationStep::<L>::TryIp,
                    Some(Ok(l)) => r == LocationStep::Found(l),
                    Some(Err(_)) => r == LocationStep::<L>::Failed(LocationError::ServiceUnavailable),
                },
            },
        },
{
    if let Some(l) = config_override {
        return LocationStep::Found(l);
    }
    match os_result {
        None => LocationStep::TryOs,
        Some(Ok(l)) => LocationStep::Found(l),
        Some(Err(_)) => match ip_result {
            None => LocationStep::TryIp,
            Some(Ok(l)) => LocationStep::Found(l),
            Some(Err(_)) => LocationStep::Failed(LocationError::ServiceUnavailable),
        },
    }
}

/// The coordinates an IP geolocation answer gives: it must report the
/// status `success` and hold both coordinates.
pub fn read_ip_answer<C>(status: &str, lat: Option<C>, lon: Option<C>) -> (r: Result<(C, C), LocationError>)
    ensures
        status@ != "success"@ ==> (r matches Err(LocationError::Other(m)) && m@ == "IP geolocation returned status: "@ + status@),
        status@ == "success"@ ==> match (lat, lon) {
            (Some(a), Some(b)) => r == Ok::<(C, C), LocationError>((a, b)),
            (None, _) => r matches Err(LocationError::Other(m)) && m@ == "IP geolocation: missing lat"@,
            (Some(_), None) => r matches Err(LocationError::Other(m)) && m@ == "IP geolocation: missing lon"@,
        },
{
    if !str_eq(status, "success") {
        return Err(LocationError::Other(concat("IP geolocation returned status: ", status)));
    }
    let a = match lat {
        Some(a) => a,
        None => return Err(LocationError::Other(crate::text::owned("IP geolocation: missing lat"))),
    };
    let b = match lon {
        Some(b) => b,
        None => return Err(LocationError::Other(crate::text::owned("IP geolocation: missing lon"))),
    };
    Ok((a, b))
}

/// The error of an IP geolocation request that could not be made.
pub fn ip_request_failed(detail: &str) -> (r: LocationError)
    ensures
        r matches LocationError::Other(m) && m@ == "IP geolocation request failed: "@ + detail@,
{
    LocationError::Other(concat("IP geolocation request failed: ", detail))
}

/// The error of an IP geolocation answer that could not be read.
pub fn ip_parse_failed(detail: &str) -> (r: LocationError)
    ensures
        r matches LocationError::Other(m) && m@ == "IP geolocation parse failed: "@ + detail@,
{
    LocationError::Other(concat("IP geolocation parse failed: ", detail))
}

} // verus!
