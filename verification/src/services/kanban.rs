use vstd::prelude::*;

use crate::services::app_error::AppError;
use crate::text::{concat, owned};

verus! {

/// Error type for kanban operations.
#[derive(Debug, Clone, PartialEq, Eq)]
pub enum KanbanError {
    Network(String),
    NotInitialized,
}

/// The text that a KanbanError displays.
pub open spec fn kanban_error_text(e: KanbanError) -> Seq<char> {
    match e {
        KanbanError::Network(s) => "Kanban error: "@ + s@,
        KanbanError::NotInitialized => "Kanban service not initialized"@,
    }
}

/// Whether `a` is the application error that `e` is reported as.
pub open spec fn kanban_reported_as(e: KanbanError, a: AppError) -> bool {
    match e {
        KanbanError::Network(s) => a == AppError::GitHub(s),
        KanbanError::NotInitialized => a matches AppError::Service(m) && m@ == "Kanban service not initialized"@,
    }
}

impl KanbanError {
    /// The text this error displays.
    pub fn message(&self) -> (r: String)
        ensures
            r@ == kanban_error_text(*self),
    {
        match self {
            KanbanError::Network(s) => concat("Kanban error: ", s.as_str()),
            KanbanError::NotInitialized => owned("Kanban service not initialized"),
        }
    }

    /// The application error this error is reported as.
    pub fn to_app_error(self) -> (r: AppError)
        ensures
            kanban_reported_as(self, r),
    {
        match self {
            KanbanError::Network(s) => AppError::GitHub(s),
            KanbanError::NotInitialized => AppError::Service(owned("Kanban service not initialized")),
        }
    }
}

} // verus!

verus! {

/// GitHub issue info (the subset the kanban board needs).
#[derive(Debug, Clone, PartialEq, Eq)]
pub struct IssueResult {
    pub number: i32,
    pub title: String,
    pub body: Option<String>,
    pub state: String,
    pub labels: Vec<String>,
    pub html_url: String,
    pub created_at: String,
    pub updated_at: String,
}

/// Messages sent from asynchronous kanban operations back to the UI thread.
#[derive(Debug)]
pub enum KanbanServiceMessage {
    /// Result of updating an issue (moving or editing a task).
    UpdateIssueDone { index: i32, result: Result<IssueResult, KanbanError> },
    /// Result of creating an issue.
    CreateIssueDone(Result<IssueResult, KanbanError>),
    /// Result of syncing one repository (fetching its issues).
    SyncDone { repo_id: String, result: Result<Vec<IssueResult>, KanbanError> },
}

} // verus!
