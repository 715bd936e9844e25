use vstd::prelude::*;

use crate::services::app_error::AppError;
use crate::text::{concat, owned};

verus! {

/// Error type for weather operations.
#[derive(Debug, Clone, PartialEq, Eq)]
pub enum WeatherError {
    Network(String),
    Location(String),
    NotInitialized,
}

/// The text that a WeatherError displays.
pub open spec fn weather_error_text(e: WeatherError) -> Seq<char> {
    match e {
        WeatherError::Network(s) => "Weather error: "@ + s@,
        WeatherError::Location(s) => "Location error: "@ + s@,
        WeatherError::NotInitialized => "Weather service not initialized"@,
    }
}

/// Whether `a` is the application error that `e` is reported as.
pub open spec fn weather_reported_as(e: WeatherError, a: AppError) -> bool {
    match e {
        WeatherError::Network(s) => a == AppError::WeatherApi(s),
        WeatherError::Location(s) => a == AppError::WeatherLocationNotFound(s),
        WeatherError::NotInitialized => a == AppError::WeatherServiceUnavailable,
    }
}

impl WeatherError {
    /// The text this error displays.
    pub fn message(&self) -> (r: String)
        ensures
            r@ == weather_error_text(*self),
    {
        match self {
            WeatherError::Network(s) => concat("Weather error: ", s.as_str()),
            WeatherError::Location(s) => concat("Location error: ", s.as_str()),
            WeatherError::NotInitialized => owned("Weather service not initialized"),
        }
    }

    /// The application error this error is reported as.
    pub fn to_app_error(self) -> (r: AppError)
        ensures
            weather_reported_as(self, r),
    {
        match self {
            WeatherError::Network(s) => AppError::WeatherApi(s),
            WeatherError::Location(s) => AppError::WeatherLocationNotFound(s),
            WeatherError::NotInitialized => AppError::WeatherServiceUnavailable,
        }
    }
}

/// Messages sent from asynchronous weather operations back to the UI
/// thread; `D` is the weather data fetched.
#[derive(Debug)]
pub enum WeatherServiceMessage<D> {
    /// Result of fetching weather data.
    FetchDone(Result<D, WeatherError>),
}

} // verus!
