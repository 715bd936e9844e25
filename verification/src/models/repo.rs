use vstd::prelude::*;

use crate::models::{ui_text, valid_index, UiMessage};
use crate::services::repo::{
    clone_url_for, clone_url_of, repo_reported_as, repo_state_code, RepoEntry, RepoError,
    RepoServiceMessage, RepoState,
};
use crate::text::{join_path, joined_path};

verus! {

/// Operation in flight; only one runs at a time.
#[derive(Debug, Clone, Copy, PartialEq, Eq, Structural)]
pub enum RepoOpState {
    Idle,
    BusyRefresh,
    BusyClone(usize),
    BusyPull(usize),
}

/// A request the repository model hands to the repository service.
#[derive(Debug, Clone, PartialEq, Eq)]
pub enum RepoRequest {
    /// Discover local repositories, fetch GitHub ones and match them.
    Refresh,
    /// Clone `url` into `target_path`; the result refers to entry `index`.
    Clone { index: usize, url: String, target_path: String },
    /// Pull the repository at `path`; the result refers to entry `index`.
    Pull { index: usize, path: String },
}

/// What a repository model step produced.
#[derive(Debug, Clone, PartialEq, Eq)]
pub struct RepoEffect {
    pub request: Option<RepoRequest>,
    /// A fresh cancellation token is made for the request.
    pub new_cancel_token: bool,
    /// The active operation's cancellation token is cancelled.
    pub cancel_token: bool,
    /// The cancellation token is dropped.
    pub clear_cancel_token: bool,
    pub repos_changed: bool,
    pub auth_changed: bool,
    pub error_occurred: bool,
}

/// A step with no request, token action or signal.
pub open spec fn quiet() -> RepoEffect {
    RepoEffect {
        request: None,
        new_cancel_token: false,
        cancel_token: false,
        clear_cancel_token: false,
        repos_changed: false,
        auth_changed: false,
        error_occurred: false,
    }
}

/// The entries with the busy flag of entry `i` set to `b`, when `i` is valid.
pub open spec fn with_busy(entries: Seq<RepoEntry>, i: int, b: bool) -> Seq<RepoEntry> {
    if 0 <= i < entries.len() {
        entries.update(i, RepoEntry { busy: b, ..entries[i] })
    } else {
        entries
    }
}


/// The state after a clone or pull of entry `index` completed with `result`:
/// the token is dropped, the entry is no longer busy, and a successful
/// operation starts a refresh when the repository service can take the
/// request (`channel_ready`); a cancelled one ends quietly.
pub open spec fn finished(old: RepoModel, new: RepoModel, index: usize, result: Result<(), RepoError>, e: RepoEffect, channel_ready: bool) -> bool {
    &&& new.entries@ == with_busy(old.entries@, index as int, false)
    &&& match result {
        Ok(()) => if !channel_ready {
            &&& new == (RepoModel { entries: new.entries, op_state: RepoOpState::Idle, ..old })
            &&& e == (RepoEffect { clear_cancel_token: true, repos_changed: true, ..quiet() })
        } else {
            &&& new == (RepoModel { entries: new.entries, loading: true, op_state: RepoOpState::BusyRefresh, ..old })
            &&& e == (RepoEffect { request: Some(RepoRequest::Refresh), clear_cancel_token: true, repos_changed: true, ..quiet() })
        },
        Err(RepoError::Cancelled) => {
            &&& new == (RepoModel { entries: new.entries, op_state: RepoOpState::Idle, ..old })
            &&& e == (RepoEffect { clear_cancel_token: true, repos_changed: true, ..quiet() })
        },
        Err(err) => {
            &&& new.error_message matches UiMessage::App(a) && repo_reported_as(err, a)
            &&& new == (RepoModel { entries: new.entries, op_state: RepoOpState::Idle, error_message: new.error_message, ..old })
            &&& e == (RepoEffect { clear_cancel_token: true, repos_changed: true, error_occurred: true, ..quiet() })
        },
    }
}

/// The state after a service completion arrives.
pub open spec fn repo_polled(old: RepoModel, new: RepoModel, msg: RepoServiceMessage, e: RepoEffect, channel_ready: bool) -> bool {
    match msg {
        RepoServiceMessage::RefreshDone(Ok(entries)) => {
            &&& new == (RepoModel { loading: false, op_state: RepoOpState::Idle, error_message: UiMessage::Empty, entries, ..old })
            &&& e == (RepoEffect { repos_changed: true, ..quiet() })
        },
        RepoServiceMessage::RefreshDone(Err(err)) => {
            &&& new.error_message matches UiMessage::App(a) && repo_reported_as(err, a)
            &&& new == (RepoModel { loading: false, op_state: RepoOpState::Idle, error_message: new.error_message, ..old })
            &&& e == (RepoEffect { error_occurred: true, ..quiet() })
        },
        RepoServiceMessage::CloneDone { index, result } => finished(old, new, index, result, e, channel_ready),
        RepoServiceMessage::PullDone { index, result } => finished(old, new, index, result, e, channel_ready),
    }
}

/// State of the repository list model.
#[derive(Debug, Clone)]
pub struct RepoModel {
    pub loading: bool,
    pub authenticated: bool,
    pub error_message: UiMessage,
    pub config_path_invalid: bool,
    pub effective_path: String,
    pub entries: Vec<RepoEntry>,
    pub op_state: RepoOpState,
}

impl RepoModel {
    /// An empty model.
    pub fn new() -> (r: Self)
        ensures
            !r.loading && !r.authenticated && !r.config_path_invalid,
            r.error_message == UiMessage::Empty,
            r.effective_path@.len() == 0,
            r.entries@.len() == 0,
            r.op_state == RepoOpState::Idle,
    {
        RepoModel {
            loading: false,
            authenticated: false,
            error_message: UiMessage::Empty,
            config_path_invalid: false,
            effective_path: String::new(),
            entries: Vec::new(),
            op_state: RepoOpState::Idle,
        }
    }

    fn set_busy(&mut self, i: usize, b: bool)
        ensures
            final(self).entries@ == with_busy(old(self).entries@, i as int, b),
            *final(self) == (RepoModel { entries: final(self).entries, ..*old(self) }),
    {
        if i < self.entries.len() {
            let mut e = self.entries.remove(i);
            e.busy = b;
            self.entries.insert(i, e);
            assert(self.entries@ =~= with_busy(old(self).entries@, i as int, b));
        }
    }

    /// The entry at `index`, if the index is valid.
    pub fn get_entry(&self, index: i32) -> (r: Option<&RepoEntry>)
        ensures
            valid_index(index, self.entries@.len()) ==> r == Some(&self.entries@[index as int]),
            !valid_index(index, self.entries@.len()) ==> r is None,
    {
        if index < 0 {
            return None;
        }
        if (index as usize) < self.entries.len() {
            Some(&self.entries[index as usize])
        } else {
            None
        }
    }

    /// Record the path settings read from the configuration, if available.
    fn apply_search_path(&mut self, search_path: Option<(String, bool)>)
        ensures
            search_path is None ==> *final(self) == *old(self),
            search_path matches Some(p) ==> *final(self) == (RepoModel {
                config_path_invalid: p.1,
                effective_path: p.0,
                ..*old(self)
            }),
    {
        match search_path {
            Some((path, invalid)) => {
                self.config_path_invalid = invalid;
                self.effective_path = path;
            },
            None => {},
        }
    }

    /// Refresh the authentication flag and the configured search path.
    pub fn check_auth(&mut self, authenticated: bool, search_path: Option<(String, bool)>) -> (e: RepoEffect)
        ensures
            search_path is None ==> *final(self) == (RepoModel { authenticated, ..*old(self) }),
            search_path matches Some(p) ==> *final(self) == (RepoModel {
                authenticated,
                config_path_invalid: p.1,
                effective_path: p.0,
                ..*old(self)
            }),
            e == (RepoEffect { auth_changed: true, ..quiet() }),
    {
        self.authenticated = authenticated;
        self.apply_search_path(search_path);
        RepoEffect {
            request: None,
            new_cancel_token: false,
            cancel_token: false,
            clear_cancel_token: false,
            repos_changed: false,
            auth_changed: true,
            error_occurred: false,
        }
    }

    /// Start a full refresh of the repository list.
    pub fn fetch_repos(&mut self, search_path: Option<(String, bool)>) -> (e: RepoEffect)
        ensures
            old(self).op_state != RepoOpState::Idle ==> {
                &&& final(self).error_message matches UiMessage::Text(t) && t@ == "Operation in progress"@
                &&& *final(self) == (RepoModel { error_message: final(self).error_message, ..*old(self) })
                &&& e == (RepoEffect { error_occurred: true, ..quiet() })
            },
            old(self).op_state == RepoOpState::Idle ==> {
                &&& search_path is None ==> final(self).effective_path == old(self).effective_path
                    && final(self).config_path_invalid == old(self).config_path_invalid
                &&& search_path matches Some(p) ==> final(self).effective_path == p.0
                    && final(self).config_path_invalid == p.1
                &&& *final(self) == (RepoModel {
                    loading: true,
                    op_state: RepoOpState::BusyRefresh,
                    error_message: UiMessage::Empty,
                    effective_path: final(self).effective_path,
                    config_path_invalid: final(self).config_path_invalid,
                    ..*old(self)
                })
                &&& e == (RepoEffect { request: Some(RepoRequest::Refresh), ..quiet() })
            },
    {
        if self.op_state != RepoOpState::Idle {
            self.error_message = ui_text("Operation in progress");
            return RepoEffect {
                request: None,
                new_cancel_token: false,
                cancel_token: false,
                clear_cancel_token: false,
                repos_changed: false,
                auth_changed: false,
                error_occurred: true,
            };
        }
        self.apply_search_path(search_path);
        self.loading = true;
        self.op_state = RepoOpState::BusyRefresh;
        self.error_message = UiMessage::Empty;
        RepoEffect {
            request: Some(RepoRequest::Refresh),
            new_cancel_token: false,
            cancel_token: false,
            clear_cancel_token: false,
            repos_changed: false,
            auth_changed: false,
            error_occurred: false,
        }
    }

    /// Clone the GitHub-only repository at `index` below `base_path` (the
    /// configured search path, or `.` when none is configured).
    pub fn clone_repo(&mut self, index: i32, base_path: Option<String>) -> (e: RepoEffect)
        ensures
            !valid_index(index, old(self).entries@.len()) || old(self).op_state != RepoOpState::Idle
                || old(self).entries@[index as int].state != RepoState::GitHubOnly ==> *final(self)
                == *old(self) && e == quiet(),
            valid_index(index, old(self).entries@.len()) && old(self).op_state == RepoOpState::Idle
                && old(self).entries@[index as int].state == RepoState::GitHubOnly
                && old(self).entries@[index as int].github is None ==> {
                &&& final(self).error_message matches UiMessage::Text(t) && t@ == "No clone URL for this repo"@
                &&& *final(self) == (RepoModel { error_message: final(self).error_message, ..*old(self) })
                &&& e == (RepoEffect { error_occurred: true, ..quiet() })
            },
            valid_index(index, old(self).entries@.len()) && old(self).op_state == RepoOpState::Idle
                && old(self).entries@[index as int].state == RepoState::GitHubOnly ==> (old(
                self).entries@[index as int].github matches Some(g) ==> {
                &&& final(self).entries@ == with_busy(old(self).entries@, index as int, true)
                &&& *final(self) == (RepoModel {
                    op_state: RepoOpState::BusyClone(index as usize),
                    entries: final(self).entries,
                    ..*old(self)
                })
                &&& e.request matches Some(RepoRequest::Clone { index: i, url, target_path })
                &&& i == index as usize && url@ == clone_url_of(g)
                &&& target_path@ == joined_path(
                    match base_path { Some(b) => b@, None => "."@ },
                    old(self).entries@[index as int].full_name@,
                )
                &&& e == (RepoEffect {
                    request: e.request,
                    new_cancel_token: true,
                    repos_changed: true,
                    ..quiet()
                })
            }),
    {
        if index < 0 {
            return RepoEffect {
                request: None,
                new_cancel_token: false,
                cancel_token: false,
                clear_cancel_token: false,
                repos_changed: false,
                auth_changed: false,
                error_occurred: false,
            };
        }
        let i = index as usize;
        if self.op_state != RepoOpState::Idle || i >= self.entries.len() {
            return RepoEffect {
                request: None,
                new_cancel_token: false,
                cancel_token: false,
                clear_cancel_token: false,
                repos_changed: false,
                auth_changed: false,
                error_occurred: false,
            };
        }
        if self.entries[i].state != RepoState::GitHubOnly {
            return RepoEffect {
                request: None,
                new_cancel_token: false,
                cancel_token: false,
                clear_cancel_token: false,
                repos_changed: false,
                auth_changed: false,
                error_occurred: false,
            };
        }
        let url = match &self.entries[i].github {
            Some(g) => clone_url_for(g),
            None => {
                self.error_message = ui_text("No clone URL for this repo");
                return RepoEffect {
                    request: None,
                    new_cancel_token: false,
                    cancel_token: false,
                    clear_cancel_token: false,
                    repos_changed: false,
                    auth_changed: false,
                    error_occurred: true,
                };
            },
        };
        let base = match &base_path {
            Some(b) => b.clone(),
            None => crate::text::owned("."),
        };
        let target_path = join_path(base.as_str(), self.entries[i].full_name.as_str());
        self.op_state = RepoOpState::BusyClone(i);
        self.set_busy(i, true);
        RepoEffect {
            request: Some(RepoRequest::Clone { index: i, url, target_path }),
            new_cancel_token: true,
            cancel_token: false,
            clear_cancel_token: false,
            repos_changed: true,
            auth_changed: false,
            error_occurred: false,
        }
    }

    /// Pull the local repository at `index`.
    pub fn pull_repo(&mut self, index: i32) -> (e: RepoEffect)
        ensures
            !valid_index(index, old(self).entries@.len()) || old(self).op_state != RepoOpState::Idle
                || old(self).entries@[index as int].local is None ==> *final(self) == *old(self) && e
                == quiet(),
            valid_index(index, old(self).entries@.len()) && old(self).op_state == RepoOpState::Idle
                ==> (old(self).entries@[index as int].local matches Some(l) ==> {
                &&& final(self).entries@ == with_busy(old(self).entries@, index as int, true)
                &&& *final(self) == (RepoModel {
                    op_state: RepoOpState::BusyPull(index as usize),
                    entries: final(self).entries,
                    ..*old(self)
                })
                &&& e == (RepoEffect {
                    request: Some(RepoRequest::Pull { index: index as usize, path: l.path }),
                    new_cancel_token: true,
                    repos_changed: true,
                    ..quiet()
                })
            }),
    {
        if index < 0 {
            return RepoEffect {
                request: None,
                new_cancel_token: false,
                cancel_token: false,
                clear_cancel_token: false,
                repos_changed: false,
                auth_changed: false,
                error_occurred: false,
            };
        }
        let i = index as usize;
        if self.op_state != RepoOpState::Idle || i >= self.entries.len() {
            return RepoEffect {
                request: None,
                new_cancel_token: false,
                cancel_token: false,
                clear_cancel_token: false,
                repos_changed: false,
                auth_changed: false,
                error_occurred: false,
            };
        }
        let path = match &self.entries[i].local {
            Some(l) => l.path.clone(),
            None => {
                return RepoEffect {
                    request: None,
                    new_cancel_token: false,
                    cancel_token: false,
                    clear_cancel_token: false,
                    repos_changed: false,
                    auth_changed: false,
                    error_occurred: false,
                };
            },
        };
        self.op_state = RepoOpState::BusyPull(i);
        self.set_busy(i, true);
        RepoEffect {
            request: Some(RepoRequest::Pull { index: i, path }),
            new_cancel_token: true,
            cancel_token: false,
            clear_cancel_token: false,
            repos_changed: true,
            auth_changed: false,
            error_occurred: false,
        }
    }

    /// Cancel the operation in flight, if any, and return to idle.
    pub fn cancel_operation(&mut self) -> (e: RepoEffect)
        ensures
            old(self).op_state matches RepoOpState::BusyClone(i) ==> final(self).entries@ == with_busy(
                old(self).entries@, i as int, false) && final(self).loading == old(self).loading,
            old(self).op_state matches RepoOpState::BusyPull(i) ==> final(self).entries@ == with_busy(
                old(self).entries@, i as int, false) && final(self).loading == old(self).loading,
            old(self).op_state == RepoOpState::BusyRefresh ==> final(self).entries@ == old(self).entries@
                && !final(self).loading,
            old(self).op_state == RepoOpState::Idle ==> final(self).entries@ == old(self).entries@
                && final(self).loading == old(self).loading,
            *final(self) == (RepoModel {
                op_state: RepoOpState::Idle,
                entries: final(self).entries,
                loading: final(self).loading,
                ..*old(self)
            }),
            e == (RepoEffect { cancel_token: true, repos_changed: true, ..quiet() }),
    {
        match self.op_state {
            RepoOpState::BusyClone(i) => self.set_busy(i, false),
            RepoOpState::BusyPull(i) => self.set_busy(i, false),
            RepoOpState::BusyRefresh => {
                self.loading = false;
            },
            RepoOpState::Idle => {},
        }
        self.op_state = RepoOpState::Idle;
        RepoEffect {
            request: None,
            new_cancel_token: false,
            cancel_token: true,
            clear_cancel_token: false,
            repos_changed: true,
            auth_changed: false,
            error_occurred: false,
        }
    }

    /// Clear the error message.
    pub fn clear_error(&mut self)
        ensures
            *final(self) == (RepoModel { error_message: UiMessage::Empty, ..*old(self) }),
    {
        self.error_message = UiMessage::Empty;
    }

    fn finish(&mut self, index: usize, result: Result<(), RepoError>, channel_ready: bool) -> (e: RepoEffect)
        ensures
            finished(*old(self), *final(self), index, result, e, channel_ready),
    {
        self.set_busy(index, false);
        self.op_state = RepoOpState::Idle;
        match result {
            Ok(()) if !channel_ready => RepoEffect {
                request: None,
                new_cancel_token: false,
                cancel_token: false,
                clear_cancel_token: true,
                repos_changed: true,
                auth_changed: false,
                error_occurred: false,
            },
            Ok(()) => {
                self.loading = true;
                self.op_state = RepoOpState::BusyRefresh;
                RepoEffect {
                    request: Some(RepoRequest::Refresh),
                    new_cancel_token: false,
                    cancel_token: false,
                    clear_cancel_token: true,
                    repos_changed: true,
                    auth_changed: false,
                    error_occurred: false,
                }
            },
            Err(RepoError::Cancelled) => RepoEffect {
                request: None,
                new_cancel_token: false,
                cancel_token: false,
                clear_cancel_token: true,
                repos_changed: true,
                auth_changed: false,
                error_occurred: false,
            },
            Err(err) => {
                self.error_message = UiMessage::App(err.to_app_error());
                RepoEffect {
                    request: None,
                    new_cancel_token: false,
                    cancel_token: false,
                    clear_cancel_token: true,
                    repos_changed: true,
                    auth_changed: false,
                    error_occurred: true,
                }
            },
        }
    }

    /// Take one completion from the repository service, if one arrived;
    /// `channel_ready` says whether the service can take a new request.
    pub fn poll_channel(&mut self, msg: Option<RepoServiceMessage>, channel_ready: bool) -> (e: RepoEffect)
        ensures
            msg is None ==> *final(self) == *old(self) && e == quiet(),
            msg matches Some(m) ==> repo_polled(*old(self), *final(self), m, e, channel_ready),
    {
        let msg = match msg {
            Some(m) => m,
            None => {
                return RepoEffect {
                    request: None,
                    new_cancel_token: false,
                    cancel_token: false,
                    clear_cancel_token: false,
                    repos_changed: false,
                    auth_changed: false,
                    error_occurred: false,
                };
            },
        };
        match msg {
            RepoServiceMessage::RefreshDone(res) => {
                self.loading = false;
                self.op_state = RepoOpState::Idle;
                match res {
                    Ok(entries) => {
                        self.error_message = UiMessage::Empty;
                        self.entries = entries;
                        RepoEffect {
                            request: None,
                            new_cancel_token: false,
                            cancel_token: false,
                            clear_cancel_token: false,
                            repos_changed: true,
                            auth_changed: false,
                            error_occurred: false,
                        }
                    },
                    Err(err) => {
                        self.error_message = UiMessage::App(err.to_app_error());
                        RepoEffect {
                            request: None,
                            new_cancel_token: false,
                            cancel_token: false,
                            clear_cancel_token: false,
                            repos_changed: false,
                            auth_changed: false,
                            error_occurred: true,
                        }
                    },
                }
            },
            RepoServiceMessage::CloneDone { index, result } => self.finish(index, result, channel_ready),
            RepoServiceMessage::PullDone { index, result } => self.finish(index, result, channel_ready),
        }
    }

    /// Number of entries listed.
    pub fn row_count(&self) -> (r: i32)
        ensures
            r == self.entries@.len() as i32,
    {
        self.entries.len() as i32
    }

    /// Full name of the entry at `index`, empty for an invalid index.
    pub fn get_full_name(&self, index: i32) -> (r: String)
        ensures
            valid_index(index, self.entries@.len()) ==> r@ == self.entries@[index as int].full_name@,
            !valid_index(index, self.entries@.len()) ==> r@.len() == 0,
    {
        match self.get_entry(index) {
            Some(e) => e.full_name.clone(),
            None => String::new(),
        }
    }

    /// Local path of the entry at `index`, empty when it has no local clone.
    pub fn get_local_path(&self, index: i32) -> (r: String)
        ensures
            valid_index(index, self.entries@.len()) && self.entries@[index as int].local is Some ==> r@
                == self.entries@[index as int].local.unwrap().path@,
            !(valid_index(index, self.entries@.len()) && self.entries@[index as int].local is Some)
                ==> r@.len() == 0,
    {
        match self.get_entry(index) {
            Some(e) => match &e.local {
                Some(l) => l.path.clone(),
                None => String::new(),
            },
            None => String::new(),
        }
    }

    /// Current branch of the entry at `index`, empty when unknown.
    pub fn get_branch(&self, index: i32) -> (r: String)
        ensures
            valid_index(index, self.entries@.len()) && self.entries@[index as int].local is Some
                && self.entries@[index as int].local.unwrap().current_branch is Some ==> r@
                == self.entries@[index as int].local.unwrap().current_branch.unwrap()@,
            !(valid_index(index, self.entries@.len()) && self.entries@[index as int].local is Some
                && self.entries@[index as int].local.unwrap().current_branch is Some) ==> r@.len() == 0,
    {
        match self.get_entry(index) {
            Some(e) => match &e.local {
                Some(l) => match &l.current_branch {
                    Some(b) => b.clone(),
                    None => String::new(),
                },
                None => String::new(),
            },
            None => String::new(),
        }
    }

    /// Whether the entry at `index` has a clean working tree; entries
    /// without a local clone, and invalid indices, count as clean.
    pub fn get_is_clean(&self, index: i32) -> (r: bool)
        ensures
            r == (!valid_index(index, self.entries@.len()) || self.entries@[index as int].local is None
                || self.entries@[index as int].local.unwrap().is_clean),
    {
        match self.get_entry(index) {
            Some(e) => match &e.local {
                Some(l) => l.is_clean,
                None => true,
            },
            None => true,
        }
    }

    /// Whether the entry at `index` has a local clone.
    pub fn get_has_local(&self, index: i32) -> (r: bool)
        ensures
            r == (valid_index(index, self.entries@.len()) && self.entries@[index as int].local is Some),
    {
        match self.get_entry(index) {
            Some(e) => e.local.is_some(),
            None => false,
        }
    }

    /// Whether the entry at `index` is on GitHub.
    pub fn get_has_github(&self, index: i32) -> (r: bool)
        ensures
            r == (valid_index(index, self.entries@.len()) && self.entries@[index as int].github is Some),
    {
        match self.get_entry(index) {
            Some(e) => e.github.is_some(),
            None => false,
        }
    }

    /// Clone URL of the entry at `index`, empty when it has none.
    pub fn get_clone_url(&self, index: i32) -> (r: String)
        ensures
            valid_index(index, self.entries@.len()) && self.entries@[index as int].github is Some
                && self.entries@[index as int].github.unwrap().clone_url is Some ==> r@
                == self.entries@[index as int].github.unwrap().clone_url.unwrap()@,
            !(valid_index(index, self.entries@.len()) && self.entries@[index as int].github is Some
                && self.entries@[index as int].github.unwrap().clone_url is Some) ==> r@.len() == 0,
    {
        match self.get_entry(index) {
            Some(e) => match &e.github {
                Some(g) => match &g.clone_url {
                    Some(u) => u.clone(),
                    None => String::new(),
                },
                None => String::new(),
            },
            None => String::new(),
        }
    }

    /// Presence state code of the entry at `index`, 0 for an invalid index.
    pub fn get_state(&self, index: i32) -> (r: i32)
        ensures
            valid_index(index, self.entries@.len()) ==> r == repo_state_code(self.entries@[index as int].state),
            !valid_index(index, self.entries@.len()) ==> r == 0,
    {
        match self.get_entry(index) {
            Some(e) => e.state.code(),
            None => 0,
        }
    }

    /// Whether an operation runs on the entry at `index`.
    pub fn get_busy(&self, index: i32) -> (r: bool)
        ensures
            r == (valid_index(index, self.entries@.len()) && self.entries@[index as int].busy),
    {
        match self.get_entry(index) {
            Some(e) => e.busy,
            None => false,
        }
    }

    /// GitHub page of the entry at `index`, empty when it is not on GitHub.
    pub fn get_html_url(&self, index: i32) -> (r: String)
        ensures
            valid_index(index, self.entries@.len()) && self.entries@[index as int].github is Some ==> r@
                == self.entries@[index as int].github.unwrap().html_url@,
            !(valid_index(index, self.entries@.len()) && self.entries@[index as int].github is Some)
                ==> r@.len() == 0,
    {
        match self.get_entry(index) {
            Some(e) => match &e.github {
                Some(g) => g.html_url.clone(),
                None => String::new(),
            },
            None => String::new(),
        }
    }
}


/// A finished clone or pull always drops the cancellation token and frees
/// its entry; only a successful one, with the service ready for a request,
/// starts a refresh.
pub proof fn law_finished_operation_releases_entry(
    old: RepoModel,
    new: RepoModel,
    msg: RepoServiceMessage,
    e: RepoEffect,
    channel_ready: bool,
)
    requires
        repo_polled(old, new, msg, e, channel_ready),
        msg !is RefreshDone,
    ensures
        e.clear_cancel_token,
        !e.new_cancel_token && !e.cancel_token,
        new.entries@.len() == old.entries@.len(),
        forall|i: int| 0 <= i < new.entries@.len() ==> (#[trigger] new.entries@[i]).busy == (old.entries@[i].busy
            && !(msg matches RepoServiceMessage::CloneDone { index, .. } && index == i)
            && !(msg matches RepoServiceMessage::PullDone { index, .. } && index == i)),
        (e.request is Some) <==> channel_ready && (msg matches RepoServiceMessage::CloneDone { result: Ok(()), .. }
            || msg matches RepoServiceMessage::PullDone { result: Ok(()), .. }),
{
}

/// A finished refresh leaves the model idle, whatever it reports.
pub proof fn law_refresh_completion_returns_to_idle(
    old: RepoModel,
    new: RepoModel,
    msg: RepoServiceMessage,
    e: RepoEffect,
    channel_ready: bool,
)
    requires
        repo_polled(old, new, msg, e, channel_ready),
        msg is RefreshDone,
    ensures
        new.op_state == RepoOpState::Idle,
        !new.loading,
        e.request is None,
{
}

} // verus!
