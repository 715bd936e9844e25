use vstd::prelude::*;

use crate::services::app_error::AppError;
use crate::text::{concat, owned};

verus! {

/// Error type for note operations.
#[derive(Debug, Clone, PartialEq, Eq)]
pub enum NoteError {
    Network(String),
    NotInitialized,
    InvalidIndex,
}

/// The text that a NoteError displays.
pub open spec fn note_error_text(e: NoteError) -> Seq<char> {
    match e {
        NoteError::Network(s) => "Network error: "@ + s@,
        NoteError::NotInitialized => "Note service not initialized"@,
        NoteError::InvalidIndex => "Invalid note index"@,
    }
}

/// Whether `a` is the application error that `e` is reported as.
pub open spec fn note_reported_as(e: NoteError, a: AppError) -> bool {
    match e {
        NoteError::Network(s) => a == AppError::DatabaseQueryFailed(s),
        NoteError::NotInitialized => a matches AppError::Service(m) && m@ == "Note service not initialized"@,
        NoteError::InvalidIndex => a matches AppError::Service(m) && m@ == "Invalid note index"@,
    }
}

impl NoteError {
    /// The text this error displays.
    pub fn message(&self) -> (r: String)
        ensures
            r@ == note_error_text(*self),
    {
        match self {
            NoteError::Network(s) => concat("Network error: ", s.as_str()),
            NoteError::NotInitialized => owned("Note service not initialized"),
            NoteError::InvalidIndex => owned("Invalid note index"),
        }
    }

    /// The application error this error is reported as.
    pub fn to_app_error(self) -> (r: AppError)
        ensures
            note_reported_as(self, r),
    {
        match self {
            NoteError::Network(s) => AppError::DatabaseQueryFailed(s),
            NoteError::NotInitialized => AppError::Service(owned("Note service not initialized")),
            NoteError::InvalidIndex => AppError::Service(owned("Invalid note index")),
        }
    }
}

} // verus!

verus! {

/// A note as stored by the note service.
#[derive(Debug, Clone, PartialEq, Eq)]
pub struct Note {
    pub id: i64,
    pub content: String,
    pub done: bool,
    /// Creation time, seconds since the Unix epoch (UTC).
    pub created_at: i64,
    pub color: Option<String>,
    pub pinned: bool,
    pub archived: bool,
    pub labels: Vec<String>,
    pub is_checklist: bool,
    /// Reminder time, seconds since the Unix epoch (UTC).
    pub reminder: Option<i64>,
}

/// A partial update of a note: each field that is `Some` is changed.
/// For `color` and `reminder`, `Some(None)` clears the value.
#[derive(Debug, Clone, PartialEq, Eq)]
pub struct NoteUpdate {
    pub content: Option<String>,
    pub done: Option<bool>,
    pub color: Option<Option<String>>,
    pub pinned: Option<bool>,
    pub archived: Option<bool>,
    pub reminder: Option<Option<i64>>,
    pub labels: Option<Vec<String>>,
}

/// The update that changes nothing.
pub open spec fn empty_update() -> NoteUpdate {
    NoteUpdate {
        content: None,
        done: None,
        color: None,
        pinned: None,
        archived: None,
        reminder: None,
        labels: None,
    }
}

impl NoteUpdate {
    /// The update that changes nothing.
    pub fn empty() -> (r: Self)
        ensures
            r == empty_update(),
    {
        NoteUpdate {
            content: None,
            done: None,
            color: None,
            pinned: None,
            archived: None,
            reminder: None,
            labels: None,
        }
    }
}

/// Filter mode for note listing.
#[derive(Debug, Clone, PartialEq, Eq)]
pub enum NoteFilter {
    All,
    Archived,
    Pinned,
    Reminders,
    Label(String),
}

/// Which listing the note service runs for a filter.
#[derive(Debug, Clone, PartialEq, Eq)]
pub enum NoteQuery {
    /// All notes that are not archived.
    ListAll,
    /// The archived notes.
    ListArchived,
    /// The notes that carry a label.
    ListByLabel(String),
}

/// The listing that a filter runs.
pub open spec fn filter_query(f: NoteFilter) -> NoteQuery {
    match f {
        NoteFilter::All | NoteFilter::Pinned | NoteFilter::Reminders => NoteQuery::ListAll,
        NoteFilter::Archived => NoteQuery::ListArchived,
        NoteFilter::Label(l) => NoteQuery::ListByLabel(l),
    }
}

/// The listing that a filter runs: pinned and reminder filters list all
/// notes; the selection among them is made by the view.
pub fn query_for_filter(filter: NoteFilter) -> (r: NoteQuery)
    ensures
        r == filter_query(filter),
{
    match filter {
        NoteFilter::All | NoteFilter::Pinned | NoteFilter::Reminders => NoteQuery::ListAll,
        NoteFilter::Archived => NoteQuery::ListArchived,
        NoteFilter::Label(l) => NoteQuery::ListByLabel(l),
    }
}

/// The update that toggles a note's done status.
pub fn toggle_done_update(current_done: bool) -> (r: NoteUpdate)
    ensures
        r == (NoteUpdate { done: Some(!current_done), ..empty_update() }),
{
    let mut req = NoteUpdate::empty();
    req.done = Some(!current_done);
    req
}

/// Messages sent from asynchronous note operations back to the UI thread.
#[derive(Debug)]
pub enum NoteServiceMessage {
    /// Result of fetching notes.
    FetchDone(Result<Vec<Note>, NoteError>),
    /// Result of creating a note.
    CreateDone(Result<Note, NoteError>),
    /// Result of updating the note at `index`.
    UpdateDone { index: usize, result: Result<Note, NoteError> },
    /// Result of deleting the note at `index`.
    DeleteDone { index: usize, result: Result<(), NoteError> },
}

} // verus!
