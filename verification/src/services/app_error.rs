use vstd::prelude::*;

verus! {

/// Application-level error categories that the service errors of the UI
/// are reported as.
#[derive(Debug, Clone, PartialEq, Eq)]
pub enum AppError {
    /// An OAuth flow failed.
    AuthOAuthFailed(String),
    /// A required configuration setting is missing.
    ConfigMissingSetting(String),
    /// A configuration value is invalid.
    ConfigInvalid(String),
    /// A service-level failure.
    Service(String),
    /// A network connection failed.
    NetworkConnectionFailed(String),
    /// The GitHub API reported an error.
    GitHub(String),
    /// A database query failed.
    DatabaseQueryFailed(String),
    /// An I/O operation failed.
    Io(String),
    /// The weather API reported an error.
    WeatherApi(String),
    /// The location could not be determined.
    WeatherLocationNotFound(String),
    /// The weather service is not available.
    WeatherServiceUnavailable,
}

} // verus!
