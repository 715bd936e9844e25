use vstd::prelude::*;

use crate::services::app_error::AppError;
use crate::text::{concat, owned};

verus! {

/// Error type for repository operations.
#[derive(Debug, Clone, PartialEq, Eq)]
pub enum RepoError {
    Git(String),
    GitHub(String),
    Io(String),
    Config(String),
    Cancelled,
}

/// The text that a RepoError displays.
pub open spec fn repo_error_text(e: RepoError) -> Seq<char> {
    match e {
        RepoError::Git(s) => "Git: "@ + s@,
        RepoError::GitHub(s) => "GitHub: "@ + s@,
        RepoError::Io(s) => "IO: "@ + s@,
        RepoError::Config(s) => "Config: "@ + s@,
        RepoError::Cancelled => "Operation cancelled"@,
    }
}

/// Whether `a` is the application error that `e` is reported as.
pub open spec fn repo_reported_as(e: RepoError, a: AppError) -> bool {
    match e {
        RepoError::Git(s) => a matches AppError::Service(m) && m@ == "Git operation failed: "@ + s@,
        RepoError::GitHub(s) => a == AppError::GitHub(s),
        RepoError::Io(s) => a == AppError::Io(s),
        RepoError::Config(s) => a == AppError::ConfigInvalid(s),
        RepoError::Cancelled => a matches AppError::Service(m) && m@ == "Operation cancelled"@,
    }
}

impl RepoError {
    /// The text this error displays.
    pub fn message(&self) -> (r: String)
        ensures
            r@ == repo_error_text(*self),
    {
        match self {
            RepoError::Git(s) => concat("Git: ", s.as_str()),
            RepoError::GitHub(s) => concat("GitHub: ", s.as_str()),
            RepoError::Io(s) => concat("IO: ", s.as_str()),
            RepoError::Config(s) => concat("Config: ", s.as_str()),
            RepoError::Cancelled => owned("Operation cancelled"),
        }
    }

    /// The application error this error is reported as.
    pub fn to_app_error(self) -> (r: AppError)
        ensures
            repo_reported_as(self, r),
    {
        match self {
            RepoError::Git(s) => AppError::Service(concat("Git operation failed: ", s.as_str())),
            RepoError::GitHub(s) => AppError::GitHub(s),
            RepoError::Io(s) => AppError::Io(s),
            RepoError::Config(s) => AppError::ConfigInvalid(s),
            RepoError::Cancelled => AppError::Service(owned("Operation cancelled")),
        }
    }
}

} // verus!

verus! {

/// How a repository is present: only locally, only on GitHub, or both.
#[derive(Debug, Clone, Copy, PartialEq, Eq, Structural)]
pub enum RepoState {
    LocalOnly,
    GitHubOnly,
    Both,
}

/// The numeric code of a repository state, in declaration order.
pub open spec fn repo_state_code(s: RepoState) -> i32 {
    match s {
        RepoState::LocalOnly => 0,
        RepoState::GitHubOnly => 1,
        RepoState::Both => 2,
    }
}

impl RepoState {
    /// The numeric code of this state.
    pub fn code(&self) -> (r: i32)
        ensures
            r == repo_state_code(*self),
    {
        match self {
            RepoState::LocalOnly => 0,
            RepoState::GitHubOnly => 1,
            RepoState::Both => 2,
        }
    }
}

/// A local clone of a repository.
#[derive(Debug, Clone, PartialEq, Eq)]
pub struct LocalRepo {
    pub path: String,
    pub current_branch: Option<String>,
    pub is_clean: bool,
}

/// A repository as listed on GitHub.
#[derive(Debug, Clone, PartialEq, Eq)]
pub struct GitHubRepo {
    pub full_name: String,
    pub clone_url: Option<String>,
    pub html_url: String,
}

/// A repository matched across the local disk and GitHub.
#[derive(Debug, Clone, PartialEq, Eq)]
pub struct RepoEntry {
    pub full_name: String,
    pub local: Option<LocalRepo>,
    pub github: Option<GitHubRepo>,
    pub state: RepoState,
    pub busy: bool,
}

/// Messages sent from asynchronous repository operations back to the UI thread.
#[derive(Debug)]
pub enum RepoServiceMessage {
    RefreshDone(Result<Vec<RepoEntry>, RepoError>),
    CloneDone { index: usize, result: Result<(), RepoError> },
    PullDone { index: usize, result: Result<(), RepoError> },
}

/// Seconds for which a fetched GitHub repository list is reused.
pub const GITHUB_CACHE_TTL_SECS: u64 = 60;

/// Whether a GitHub list cached at `cached_at` (seconds; 0 means never) may
/// be reused at `now` (seconds).
pub open spec fn github_cache_usable(cached_at: u64, now: u64) -> bool {
    cached_at != 0 && (if now >= cached_at { now - cached_at } else { 0 }) <= GITHUB_CACHE_TTL_SECS
}

/// Whether a GitHub list cached at `cached_at` may be reused at `now`.
pub fn github_cache_fresh(cached_at: u64, now: u64) -> (r: bool)
    ensures
        r == github_cache_usable(cached_at, now),
{
    if cached_at == 0 {
        return false;
    }
    now.saturating_sub(cached_at) <= GITHUB_CACHE_TTL_SECS
}

/// The URL to clone a GitHub-only repository from: its clone URL when one
/// is given and not empty, otherwise the HTTPS URL built from its full name.
pub open spec fn clone_url_of(g: GitHubRepo) -> Seq<char> {
    match g.clone_url {
        Some(u) => if u@.len() > 0 { u@ } else { "https://github.com/"@ + g.full_name@ + ".git"@ },
        None => "https://github.com/"@ + g.full_name@ + ".git"@,
    }
}

/// The URL to clone a repository from.
pub fn clone_url_for(g: &GitHubRepo) -> (r: String)
    ensures
        r@ == clone_url_of(*g),
{
    match &g.clone_url {
        Some(u) => {
            if u.as_str().is_empty() {
                crate::text::concat3("https://github.com/", g.full_name.as_str(), ".git")
            } else {
                u.clone()
            }
        },
        None => crate::text::concat3("https://github.com/", g.full_name.as_str(), ".git"),
    }
}


/// Where a refresh takes the GitHub repositories from.
#[derive(Debug, Clone, PartialEq, Eq)]
pub enum RemoteSource<R> {
    /// The given list (the cached list, or nothing when not signed in).
    Use(Vec<R>),
    /// Ask GitHub for the list (and cache it).
    Fetch,
}

/// Where a refresh takes the GitHub repositories from: nothing when not
/// authenticated; otherwise the cached list (`cached`, offered only while
/// it is fresh), else GitHub when a client is available, else nothing.
pub fn plan_remote<R>(authenticated: bool, cached: Option<Vec<R>>, has_client: bool) -> (r: RemoteSource<R>)
    ensures
        !authenticated ==> (r matches RemoteSource::Use(v) && v@.len() == 0),
        authenticated ==> match cached {
            Some(list) => r == RemoteSource::Use(list),
            None => if has_client {
                r == RemoteSource::<R>::Fetch
            } else {
                r matches RemoteSource::Use(v) && v@.len() == 0
            },
        },
{
    if !authenticated {
        return RemoteSource::Use(Vec::new());
    }
    match cached {
        Some(list) => RemoteSource::Use(list),
        None => if has_client { RemoteSource::Fetch } else { RemoteSource::Use(Vec::new()) },
    }
}

/// The outcome of discovering the local repositories: the discovery itself
/// may fail (a Git error), or the blocking task running it (an I/O error).
pub fn local_outcome<L>(discovery: Result<Result<L, String>, String>) -> (r: Result<L, RepoError>)
    ensures
        match discovery {
            Ok(Ok(l)) => r == Ok::<L, RepoError>(l),
            Ok(Err(e)) => r == Err::<L, RepoError>(RepoError::Git(e)),
            Err(e) => r == Err::<L, RepoError>(RepoError::Io(e)),
        },
{
    match discovery {
        Ok(Ok(l)) => Ok(l),
        Ok(Err(e)) => Err(RepoError::Git(e)),
        Err(e) => Err(RepoError::Io(e)),
    }
}

/// The outcome of asking GitHub for the repositories.
pub fn remote_outcome<R>(fetched: Result<Vec<R>, String>) -> (r: Result<Vec<R>, RepoError>)
    ensures
        match fetched {
            Ok(v) => r == Ok::<Vec<R>, RepoError>(v),
            Err(e) => r == Err::<Vec<R>, RepoError>(RepoError::GitHub(e)),
        },
{
    match fetched {
        Ok(v) => Ok(v),
        Err(e) => Err(RepoError::GitHub(e)),
    }
}

} // verus!
