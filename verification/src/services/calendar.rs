use vstd::prelude::*;

use crate::services::app_error::AppError;
use crate::text::{concat, owned};

verus! {

/// Error type for Calendar operations.
#[derive(Debug, Clone, PartialEq, Eq)]
pub enum CalendarError {
    Network(String),
    Auth(String),
    NotInitialized,
}

/// The text that a CalendarError displays.
pub open spec fn calendar_error_text(e: CalendarError) -> Seq<char> {
    match e {
        CalendarError::Network(s) => "Calendar error: "@ + s@,
        CalendarError::Auth(s) => "Calendar auth error: "@ + s@,
        CalendarError::NotInitialized => "Calendar service not initialized"@,
    }
}

/// Whether `a` is the application error that `e` is reported as.
pub open spec fn calendar_reported_as(e: CalendarError, a: AppError) -> bool {
    match e {
        CalendarError::Network(s) => a == AppError::NetworkConnectionFailed(s),
        CalendarError::Auth(s) => a == AppError::AuthOAuthFailed(s),
        CalendarError::NotInitialized => a matches AppError::Service(m) && m@ == "Calendar service not initialized"@,
    }
}

impl CalendarError {
    /// The text this error displays.
    pub fn message(&self) -> (r: String)
        ensures
            r@ == calendar_error_text(*self),
    {
        match self {
            CalendarError::Network(s) => concat("Calendar error: ", s.as_str()),
            CalendarError::Auth(s) => concat("Calendar auth error: ", s.as_str()),
            CalendarError::NotInitialized => owned("Calendar service not initialized"),
        }
    }

    /// The application error this error is reported as.
    pub fn to_app_error(self) -> (r: AppError)
        ensures
            calendar_reported_as(self, r),
    {
        match self {
            CalendarError::Network(s) => AppError::NetworkConnectionFailed(s),
            CalendarError::Auth(s) => AppError::AuthOAuthFailed(s),
            CalendarError::NotInitialized => AppError::Service(owned("Calendar service not initialized")),
        }
    }
}

} // verus!

verus! {

/// A calendar event, with its start and end as milliseconds since the Unix
/// epoch (UTC).
#[derive(Debug, Clone, PartialEq, Eq)]
pub struct CalendarEvent {
    pub id: String,
    pub summary: String,
    pub description: Option<String>,
    pub location: Option<String>,
    pub start_millis: i64,
    pub end_millis: i64,
    pub all_day: bool,
    /// The event's status as its name (`Confirmed`, `Tentative`, ...).
    pub status: String,
}

/// A calendar of the account.
#[derive(Debug, Clone, PartialEq, Eq)]
pub struct CalendarInfo {
    pub id: String,
    pub summary: String,
    pub is_primary: bool,
    pub background_color: Option<String>,
}

/// Messages sent from asynchronous calendar operations back to the UI thread.
#[derive(Debug)]
pub enum CalendarServiceMessage {
    /// Result of fetching events.
    FetchEventsDone(Result<Vec<CalendarEvent>, CalendarError>),
    /// Result of fetching the calendar list.
    FetchCalendarsDone(Result<Vec<CalendarInfo>, CalendarError>),
}

} // verus!
