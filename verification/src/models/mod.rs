//! State of the UI list models: what each model holds, how its invokable
//! methods change it, which service request they issue, and which signals
//! they raise.  The asynchronous services and the view layer run outside;
//! they hand each completion back to the model's `poll_channel`.

use vstd::prelude::*;

use crate::services::app_error::AppError;

pub mod auth;
pub mod calendar;
pub mod encoding;
pub mod gmail;
pub mod google_auth;
pub mod hash;
pub mod json;
pub mod jwt;
pub mod kanban;
pub mod note;
pub mod organization;
pub mod project;
pub mod time;
pub mod prospect;
pub mod repo;
pub mod samples;
pub mod todo;
pub mod uuid;
pub mod weather;
pub mod workflow;

verus! {

/// The content of a model's error-message property: empty, a fixed text,
/// or an application error shown through its user-facing message.
#[derive(Debug, Clone, PartialEq, Eq)]
pub enum UiMessage {
    Empty,
    Text(String),
    App(AppError),
}

/// A `UiMessage` holding the given text.
pub fn ui_text(s: &str) -> (r: UiMessage)
    ensures
        r matches UiMessage::Text(t) && t@ == s@,
{
    UiMessage::Text(crate::text::owned(s))
}

/// Whether `i` is a valid index into a list of length `len`.
pub open spec fn valid_index(i: i32, len: nat) -> bool {
    0 <= i && i < len
}

} // verus!
