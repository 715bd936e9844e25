use vstd::prelude::*;

use crate::services::app_error::AppError;
use crate::text::{concat, owned};

verus! {

/// Error type for project operations.
#[derive(Debug, Clone, PartialEq, Eq)]
pub enum ProjectError {
    Network(String),
    NotInitialized,
}

/// The text that a ProjectError displays.
pub open spec fn project_error_text(e: ProjectError) -> Seq<char> {
    match e {
        ProjectError::Network(s) => "Project error: "@ + s@,
        ProjectError::NotInitialized => "Project service not initialized"@,
    }
}

/// Whether `a` is the application error that `e` is reported as.
pub open spec fn project_reported_as(e: ProjectError, a: AppError) -> bool {
    match e {
        ProjectError::Network(s) => a == AppError::GitHub(s),
        ProjectError::NotInitialized => a matches AppError::Service(m) && m@ == "Project service not initialized"@,
    }
}

impl ProjectError {
    /// The text this error displays.
    pub fn message(&self) -> (r: String)
        ensures
            r@ == project_error_text(*self),
    {
        match self {
            ProjectError::Network(s) => concat("Project error: ", s.as_str()),
            ProjectError::NotInitialized => owned("Project service not initialized"),
        }
    }

    /// The application error this error is reported as.
    pub fn to_app_error(self) -> (r: AppError)
        ensures
            project_reported_as(self, r),
    {
        match self {
            ProjectError::Network(s) => AppError::GitHub(s),
            ProjectError::NotInitialized => AppError::Service(owned("Project service not initialized")),
        }
    }
}

} // verus!

verus! {

/// GitHub repository info (the subset a project needs).
#[derive(Debug, Clone, PartialEq, Eq)]
pub struct RepoInfo {
    pub full_name: String,
    pub description: Option<String>,
}

/// Messages sent from asynchronous project operations back to the UI thread.
#[derive(Debug)]
pub enum ProjectServiceMessage {
    /// Result of fetching repository info from GitHub when adding it to a project.
    FetchRepoDone(Result<RepoInfo, ProjectError>),
}


/// Why an operation on the local project store failed: the store could not
/// be locked, or the operation itself failed; each carries its error text.
#[derive(Debug, Clone, PartialEq, Eq)]
pub enum StoreError {
    Locked(String),
    Failed(String),
}

} // verus!
