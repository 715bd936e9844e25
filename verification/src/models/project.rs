use vstd::prelude::*;
use vstd::string::StrSliceExecFns;

use crate::json::lists::{json_string_list, string_list_to_json};
use crate::models::kanban::TaskStatus;
use crate::models::{valid_index, UiMessage};
use crate::services::project::{project_error_text, ProjectServiceMessage, StoreError};
use crate::stamp::{is_rfc3339_timestamp, is_v4_uuid_text, new_uuid_v4, now_rfc3339};
use crate::text::{concat, decimal_text, i64_to_string, owned, trim, trim_spec};

verus! {

/// A project: a named group of repositories and tasks.
#[derive(Debug, Clone, PartialEq, Eq)]
pub struct Project {
    pub id: String,
    pub name: String,
    pub description: Option<String>,
    pub created_at: String,
}

/// Number of tasks of a project in each status.
#[derive(Debug, Clone, Copy, PartialEq, Eq, Structural)]
pub struct TaskCounts {
    pub backlog: i32,
    pub todo: i32,
    pub in_progress: i32,
    pub blocked: i32,
    pub review: i32,
    pub done: i32,
}

/// No task in any status.
pub open spec fn zero_counts() -> TaskCounts {
    TaskCounts { backlog: 0, todo: 0, in_progress: 0, blocked: 0, review: 0, done: 0 }
}

/// `c` with the count of `status` set to `n`.
pub open spec fn with_count(c: TaskCounts, status: TaskStatus, n: i32) -> TaskCounts {
    match status {
        TaskStatus::Backlog => TaskCounts { backlog: n, ..c },
        TaskStatus::Todo => TaskCounts { todo: n, ..c },
        TaskStatus::InProgress => TaskCounts { in_progress: n, ..c },
        TaskStatus::Blocked => TaskCounts { blocked: n, ..c },
        TaskStatus::Review => TaskCounts { review: n, ..c },
        TaskStatus::Done => TaskCounts { done: n, ..c },
    }
}

/// The counts read from a list of `(status, count)` pairs, starting from
/// zero; a status listed twice keeps its last count.
pub open spec fn counts_from(s: Seq<(TaskStatus, i32)>) -> TaskCounts
    decreases s.len(),
{
    if s.len() == 0 {
        zero_counts()
    } else {
        with_count(counts_from(s.drop_last()), s.last().0, s.last().1)
    }
}

/// The JSON object of the counts, with the keys in the order of the board's
/// columns.
pub open spec fn task_counts_json(c: TaskCounts) -> Seq<char> {
    "{\"backlog\":"@ + decimal_text(c.backlog as int)
        + ",\"todo\":"@ + decimal_text(c.todo as int)
        + ",\"in_progress\":"@ + decimal_text(c.in_progress as int)
        + ",\"blocked\":"@ + decimal_text(c.blocked as int)
        + ",\"review\":"@ + decimal_text(c.review as int)
        + ",\"done\":"@ + decimal_text(c.done as int) + "}"@
}

impl TaskCounts {
    /// No task in any status.
    pub fn zero() -> (r: Self)
        ensures
            r == zero_counts(),
    {
        TaskCounts { backlog: 0, todo: 0, in_progress: 0, blocked: 0, review: 0, done: 0 }
    }

    /// The counts read from `(status, count)` pairs, as the project store
    /// reports them.
    pub fn from_status_counts(counts: &[(TaskStatus, i32)]) -> (r: Self)
        ensures
            r == counts_from(counts@),
    {
        let mut r = TaskCounts::zero();
        let mut i: usize = 0;
        while i < counts.len()
            invariant
                i <= counts@.len(),
                r == counts_from(counts@.subrange(0, i as int)),
            decreases counts@.len() - i,
        {
            let (status, n) = counts[i];
            match status {
                TaskStatus::Backlog => r.backlog = n,
                TaskStatus::Todo => r.todo = n,
                TaskStatus::InProgress => r.in_progress = n,
                TaskStatus::Blocked => r.blocked = n,
                TaskStatus::Review => r.review = n,
                TaskStatus::Done => r.done = n,
            }
            assert(counts@.subrange(0, i + 1).drop_last() =~= counts@.subrange(0, i as int));
            i = i + 1;
        }
        assert(counts@.subrange(0, counts@.len() as int) =~= counts@);
        r
    }

    /// The counts as a JSON object.
    pub fn to_json(&self) -> (r: String)
        ensures
            r@ == task_counts_json(*self),
    {
        let mut s = owned("{\"backlog\":");
        s = concat(s.as_str(), i64_to_string(self.backlog as i64).as_str());
        s = concat(s.as_str(), ",\"todo\":");
        s = concat(s.as_str(), i64_to_string(self.todo as i64).as_str());
        s = concat(s.as_str(), ",\"in_progress\":");
        s = concat(s.as_str(), i64_to_string(self.in_progress as i64).as_str());
        s = concat(s.as_str(), ",\"blocked\":");
        s = concat(s.as_str(), i64_to_string(self.blocked as i64).as_str());
        s = concat(s.as_str(), ",\"review\":");
        s = concat(s.as_str(), i64_to_string(self.review as i64).as_str());
        s = concat(s.as_str(), ",\"done\":");
        s = concat(s.as_str(), i64_to_string(self.done as i64).as_str());
        concat(s.as_str(), "}")
    }
}

/// Operation in flight; only one runs at a time.
#[derive(Debug, Clone, PartialEq, Eq)]
pub enum ProjectOpState {
    Idle,
    /// The repository `repo_id` is being checked on GitHub before it is
    /// linked to project `project_id`.
    AddingRepoToProject { project_id: String, repo_id: String },
}

/// What a project model step asks of the caller.
#[derive(Debug, Clone, Copy, PartialEq, Eq, Structural)]
pub struct ProjectEffect {
    /// The task counts are to be reloaded from the store (`load_task_counts`).
    pub reload_counts: bool,
    pub projects_changed: bool,
    pub auth_changed: bool,
}

/// A step with no reload and no signal.
pub open spec fn no_project_effect() -> ProjectEffect {
    ProjectEffect { reload_counts: false, projects_changed: false, auth_changed: false }
}

/// The message `m` shows exactly `text`.
pub open spec fn shows(m: UiMessage, text: Seq<char>) -> bool {
    m matches UiMessage::Text(t) && t@ == text
}

/// The text shown when a store operation failed: a lock failure has its
/// own wording, any other failure is prefixed with `what`.
pub open spec fn store_failure_text(e: StoreError, what: Seq<char>) -> Seq<char> {
    match e {
        StoreError::Locked(m) => "Failed to access store: "@ + m@,
        StoreError::Failed(m) => what + m@,
    }
}

/// The message shown when a store operation failed.
fn store_failure(e: StoreError, what: &str) -> (r: UiMessage)
    ensures
        shows(r, store_failure_text(e, what@)),
{
    match e {
        StoreError::Locked(m) => UiMessage::Text(concat("Failed to access store: ", m.as_str())),
        StoreError::Failed(m) => UiMessage::Text(concat(what, m.as_str())),
    }
}

/// `repo_id` has the form `owner/repo`: exactly one slash.
pub open spec fn owner_repo_form(repo_id: Seq<char>) -> bool {
    exists|k: int| 0 <= k < repo_id.len() && #[trigger] repo_id[k] == '/' && (forall|j: int|
        0 <= j < repo_id.len() && j != k ==> repo_id[j] != '/')
}

/// State of the project list.
#[derive(Debug, Clone)]
pub struct ProjectModel {
    pub loading: bool,
    pub authenticated: bool,
    pub error_message: UiMessage,
    pub projects: Vec<Project>,
    /// Task counts of each project, in the order of `projects`; `None`
    /// where the store could not count them.
    pub counts: Vec<Option<TaskCounts>>,
    /// Whether the project store is attached.
    pub has_store: bool,
    /// Whether a GitHub client is attached.
    pub has_github: bool,
    pub op_state: ProjectOpState,
}

/// The model after attaching the services it is missing: the store on first
/// use, and a GitHub client when one is available.
pub open spec fn project_initialized(old: ProjectModel, store_available: bool, github_available: bool) -> ProjectModel {
    if old.has_store {
        old
    } else {
        ProjectModel { has_store: store_available, has_github: old.has_github || github_available, ..old }
    }
}

impl ProjectModel {
    /// Every project has its slot of task counts.
    pub open spec fn well_formed(&self) -> bool {
        self.counts@.len() == self.projects@.len()
    }

    /// An empty model.
    pub fn new() -> (r: Self)
        ensures
            r.well_formed(),
            !r.loading && !r.authenticated && !r.has_store && !r.has_github,
            r.error_message == UiMessage::Empty,
            r.projects@.len() == 0,
            r.op_state == ProjectOpState::Idle,
    {
        ProjectModel {
            loading: false,
            authenticated: false,
            error_message: UiMessage::Empty,
            projects: Vec::new(),
            counts: Vec::new(),
            has_store: false,
            has_github: false,
            op_state: ProjectOpState::Idle,
        }
    }

    /// Attach the services that are missing; `store_available` and
    /// `github_available` say what the services offer.
    pub fn ensure_initialized(&mut self, store_available: bool, github_available: bool)
        ensures
            *final(self) == project_initialized(*old(self), store_available, github_available),
    {
        if self.has_store {
            return;
        }
        self.has_store = store_available;
        if github_available {
            self.has_github = true;
        }
    }

    /// The project at `index`, if the index is valid.
    pub fn get_project(&self, index: i32) -> (r: Option<&Project>)
        ensures
            valid_index(index, self.projects@.len()) ==> r == Some(&self.projects@[index as int]),
            !valid_index(index, self.projects@.len()) ==> r is None,
    {
        if index < 0 || index as usize >= self.projects.len() {
            None
        } else {
            Some(&self.projects[index as usize])
        }
    }

    /// The id of the project at `index` when the store is attached: the
    /// project that a store operation on `index` (removing it, listing or
    /// unlinking its repositories) acts on.
    pub fn stored_project_id(&self, index: i32) -> (r: Option<String>)
        ensures
            self.has_store && valid_index(index, self.projects@.len()) ==> (r matches Some(id) && id@ == self.projects@[index as int].id@),
            !(self.has_store && valid_index(index, self.projects@.len())) ==> r is None,
    {
        if !self.has_store {
            return None;
        }
        match self.get_project(index) {
            Some(p) => Some(owned(p.id.as_str())),
            None => None,
        }
    }

    /// Replace the task counts with what the store reports for each project
    /// (`Err` where it could not count them).  A store that could not be
    /// locked (`Err` outside) or is missing leaves the counts unchanged.
    pub fn load_task_counts(&mut self, counts: Result<Vec<Result<Vec<(TaskStatus, i32)>, String>>, String>)
        requires
            old(self).well_formed(),
        ensures
            final(self).well_formed(),
            !old(self).has_store || counts is Err ==> *final(self) == *old(self),
            old(self).has_store && counts is Ok ==> {
                &&& *final(self) == (ProjectModel { counts: final(self).counts, ..*old(self) })
                &&& forall|i: int| 0 <= i < final(self).counts@.len() ==> #[trigger] final(self).counts@[i] == {
                    let per = counts->Ok_0@;
                    if i < per.len() && per[i] is Ok {
                        Some(counts_from(per[i]->Ok_0@))
                    } else {
                        None
                    }
                }
            },
    {
        if !self.has_store {
            return;
        }
        let per = match counts {
            Ok(per) => per,
            Err(_) => return,
        };
        let n = self.projects.len();
        let mut out: Vec<Option<TaskCounts>> = Vec::new();
        let mut i: usize = 0;
        while i < n
            invariant
                n == self.projects@.len(),
                i <= n,
                out@.len() == i,
                forall|k: int| 0 <= k < i ==> #[trigger] out@[k] == (if k < per@.len() && per@[k] is Ok {
                    Some(counts_from(per@[k]->Ok_0@))
                } else {
                    None
                }),
            decreases n - i,
        {
            if i < per.len() {
                match &per[i] {
                    Ok(c) => out.push(Some(TaskCounts::from_status_counts(c.as_slice()))),
                    Err(_) => out.push(None),
                }
            } else {
                out.push(None);
            }
            i = i + 1;
        }
        self.counts = out;
    }

    /// Load the projects listed by the store (`listing`, only consulted
    /// when a store is attached).  On success the task counts are to be
    /// reloaded and `projects_changed` is raised.
    pub fn fetch_projects(
        &mut self,
        store_available: bool,
        github_available: bool,
        listing: Result<Vec<Project>, StoreError>,
    ) -> (e: ProjectEffect)
        requires
            old(self).well_formed(),
        ensures
            final(self).well_formed(),
            ({
                let m = project_initialized(*old(self), store_available, github_available);
                if !m.has_store {
                    &&& shows(final(self).error_message, "Project store not initialized"@)
                    &&& *final(self) == (ProjectModel { error_message: final(self).error_message, ..m })
                    &&& e == no_project_effect()
                } else {
                    match listing {
                        Ok(ps) => {
                            &&& final(self).projects@ == ps@
                            &&& forall|i: int| 0 <= i < final(self).counts@.len() ==> #[trigger] final(self).counts@[i] is None
                            &&& *final(self) == (ProjectModel {
                                loading: false,
                                error_message: UiMessage::Empty,
                                projects: final(self).projects,
                                counts: final(self).counts,
                                ..m
                            })
                            &&& e == (ProjectEffect { reload_counts: true, projects_changed: true, ..no_project_effect() })
                        },
                        Err(err) => {
                            &&& shows(final(self).error_message, store_failure_text(err, "Failed to load projects: "@))
                            &&& *final(self) == (ProjectModel { loading: false, error_message: final(self).error_message, ..m })
                            &&& e == no_project_effect()
                        },
                    }
                }
            }),
    {
        self.ensure_initialized(store_available, github_available);
        if !self.has_store {
            self.error_message = UiMessage::Text(owned("Project store not initialized"));
            return ProjectEffect { reload_counts: false, projects_changed: false, auth_changed: false };
        }
        self.loading = true;
        self.error_message = UiMessage::Empty;
        match listing {
            Ok(ps) => {
                let n = ps.len();
                let mut counts: Vec<Option<TaskCounts>> = Vec::new();
                let mut i: usize = 0;
                while i < n
                    invariant
                        i <= n,
                        counts@.len() == i,
                        forall|k: int| 0 <= k < i ==> #[trigger] counts@[k] is None,
                    decreases n - i,
                {
                    counts.push(None);
                    i = i + 1;
                }
                self.projects = ps;
                self.counts = counts;
                self.loading = false;
                ProjectEffect { reload_counts: true, projects_changed: true, auth_changed: false }
            },
            Err(err) => {
                self.error_message = store_failure(err, "Failed to load projects: ");
                self.loading = false;
                ProjectEffect { reload_counts: false, projects_changed: false, auth_changed: false }
            },
        }
    }

    /// Number of projects.
    pub fn row_count(&self) -> (r: i32)
        ensures
            r == self.projects@.len() as i32,
    {
        self.projects.len() as i32
    }

    /// Id of the project at `index`; empty for an invalid index.
    pub fn get_id(&self, index: i32) -> (r: String)
        ensures
            valid_index(index, self.projects@.len()) ==> r@ == self.projects@[index as int].id@,
            !valid_index(index, self.projects@.len()) ==> r@.len() == 0,
    {
        match self.get_project(index) {
            Some(p) => owned(p.id.as_str()),
            None => String::new(),
        }
    }

    /// Name of the project at `index`; empty for an invalid index.
    pub fn get_project_name(&self, index: i32) -> (r: String)
        ensures
            valid_index(index, self.projects@.len()) ==> r@ == self.projects@[index as int].name@,
            !valid_index(index, self.projects@.len()) ==> r@.len() == 0,
    {
        match self.get_project(index) {
            Some(p) => owned(p.name.as_str()),
            None => String::new(),
        }
    }

    /// Description of the project at `index`; empty for an invalid index
    /// or a project without one.
    pub fn get_description(&self, index: i32) -> (r: String)
        ensures
            valid_index(index, self.projects@.len()) ==> (self.projects@[index as int].description matches Some(d)
                ==> r@ == d@),
            !(valid_index(index, self.projects@.len()) && self.projects@[index as int].description is Some)
                ==> r@.len() == 0,
    {
        match self.get_project(index) {
            Some(p) => match &p.description {
                Some(d) => owned(d.as_str()),
                None => String::new(),
            },
            None => String::new(),
        }
    }

    /// The repositories of the project at `index` as a JSON array of
    /// strings.  `repos` is what the store lists for that project; it is
    /// only consulted for a valid index with the store attached, and `[]`
    /// is shown otherwise or when the listing failed.
    pub fn get_repos_for_project(&self, index: i32, repos: Result<Vec<String>, StoreError>) -> (r: String)
        ensures
            self.has_store && valid_index(index, self.projects@.len()) && repos is Ok
                ==> r@ == json_string_list(repos->Ok_0@.map_values(|s: String| s@)),
            !(self.has_store && valid_index(index, self.projects@.len()) && repos is Ok) ==> r@ == "[]"@,
    {
        let empty = owned("[]");
        if !self.has_store || index < 0 || index as usize >= self.projects.len() {
            return empty;
        }
        match repos {
            Ok(list) => string_list_to_json(&list),
            Err(_) => empty,
        }
    }

    /// The task counts of the project at `index` as JSON; all zero for an
    /// invalid index or a project whose counts are unknown.
    pub fn get_task_counts(&self, index: i32) -> (r: String)
        requires
            self.well_formed(),
        ensures
            valid_index(index, self.projects@.len()) ==> (self.counts@[index as int] matches Some(c)
                ==> r@ == task_counts_json(c)),
            !(valid_index(index, self.projects@.len()) && self.counts@[index as int] is Some)
                ==> r@ == task_counts_json(zero_counts()),
    {
        if index < 0 || index as usize >= self.projects.len() {
            return TaskCounts::zero().to_json();
        }
        match self.counts[index as usize] {
            Some(c) => c.to_json(),
            None => TaskCounts::zero().to_json(),
        }
    }

    /// Check a new project's name and make the project to store: a fresh
    /// id, the trimmed name, the trimmed description (absent when empty)
    /// and the current time.  Returns `None` with the reason in the error
    /// message when the name is blank or there is no store.
    pub fn create_project(
        &mut self,
        name: &str,
        description: &str,
        store_available: bool,
        github_available: bool,
    ) -> (r: Option<Project>)
        ensures
            ({
                let m = project_initialized(*old(self), store_available, github_available);
                if trim_spec(name@).len() == 0 {
                    &&& r is None
                    &&& shows(final(self).error_message, "Project name cannot be empty"@)
                    &&& *final(self) == (ProjectModel { error_message: final(self).error_message, ..m })
                } else if !m.has_store {
                    &&& r is None
                    &&& shows(final(self).error_message, "Project store not initialized"@)
                    &&& *final(self) == (ProjectModel { error_message: final(self).error_message, ..m })
                } else {
                    &&& *final(self) == m
                    &&& r matches Some(p) && {
                        &&& p.id@.len() == 36
                        &&& is_v4_uuid_text(p.id@)
                        &&& is_rfc3339_timestamp(p.created_at@)
                        &&& p.name@ == trim_spec(name@)
                        &&& if trim_spec(description@).len() == 0 {
                            p.description is None
                        } else {
                            p.description matches Some(d) && d@ == trim_spec(description@)
                        }
                    }
                }
            }),
    {
        self.ensure_initialized(store_available, github_available);
        let trimmed = trim(name);
        if trimmed.unicode_len() == 0 {
            self.error_message = UiMessage::Text(owned("Project name cannot be empty"));
            return None;
        }
        if !self.has_store {
            self.error_message = UiMessage::Text(owned("Project store not initialized"));
            return None;
        }
        let d = trim(description);
        let desc = if d.unicode_len() == 0 {
            None
        } else {
            Some(owned(d))
        };
        Some(Project { id: new_uuid_v4(), name: owned(trimmed), description: desc, created_at: now_rfc3339() })
    }

    /// Apply the store's answer to saving a new project: on success the
    /// project is listed with zero task counts.
    pub fn project_created(&mut self, project: Project, result: Result<(), StoreError>) -> (e: ProjectEffect)
        requires
            old(self).well_formed(),
        ensures
            final(self).well_formed(),
            match result {
                Ok(()) => {
                    &&& final(self).projects@ == old(self).projects@.push(project)
                    &&& final(self).counts@ == old(self).counts@.push(Some(zero_counts()))
                    &&& *final(self) == (ProjectModel { projects: final(self).projects, counts: final(self).counts, ..*old(self) })
                    &&& e == (ProjectEffect { projects_changed: true, ..no_project_effect() })
                },
                Err(err) => {
                    &&& shows(final(self).error_message, store_failure_text(err, "Failed to create project: "@))
                    &&& *final(self) == (ProjectModel { error_message: final(self).error_message, ..*old(self) })
                    &&& e == no_project_effect()
                },
            },
    {
        match result {
            Ok(()) => {
                self.projects.push(project);
                self.counts.push(Some(TaskCounts::zero()));
                ProjectEffect { reload_counts: false, projects_changed: true, auth_changed: false }
            },
            Err(err) => {
                self.error_message = store_failure(err, "Failed to create project: ");
                ProjectEffect { reload_counts: false, projects_changed: false, auth_changed: false }
            },
        }
    }

    /// Start linking `repo_id` to a project: check the form `owner/repo`
    /// and that GitHub is available, then ask GitHub for the repository.
    /// Returns the owner and repository name to fetch.
    fn start_adding_repo(&mut self, project_id: String, repo_id: &str, channel_ready: bool) -> (r: Option<(String, String)>)
        ensures
            if !owner_repo_form(repo_id@) {
                &&& r is None
                &&& shows(final(self).error_message, "Invalid repo format. Use 'owner/repo'"@)
                &&& *final(self) == (ProjectModel { error_message: final(self).error_message, ..*old(self) })
            } else if !old(self).has_github {
                &&& r is None
                &&& shows(final(self).error_message, "GitHub not authenticated"@)
                &&& *final(self) == (ProjectModel { error_message: final(self).error_message, ..*old(self) })
            } else if !channel_ready {
                &&& r is None
                &&& shows(final(self).error_message, "Service channel not ready"@)
                &&& *final(self) == (ProjectModel { error_message: final(self).error_message, ..*old(self) })
            } else {
                &&& r matches Some((owner, repo)) && repo_id@ == owner@ + seq!['/'] + repo@
                &&& final(self).op_state matches ProjectOpState::AddingRepoToProject { project_id: p, repo_id: q }
                    && p == project_id && q@ == repo_id@
                &&& *final(self) == (ProjectModel {
                    loading: true,
                    error_message: UiMessage::Empty,
                    op_state: final(self).op_state,
                    ..*old(self)
                })
            },
    {
        let split = crate::services::workflow::split_repo_id(repo_id);
        let (owner, repo) = match split {
            Some(parts) => parts,
            None => {
                proof {
                    if owner_repo_form(repo_id@) {
                        let w = choose|w: int| 0 <= w < repo_id@.len() && #[trigger] repo_id@[w] == '/' && (forall|j: int|
                            0 <= j < repo_id@.len() && j != w ==> repo_id@[j] != '/');
                        assert(repo_id@[w] != '/');
                    }
                }
                self.error_message = UiMessage::Text(owned("Invalid repo format. Use 'owner/repo'"));
                return None;
            },
        };
        let ghost whole = owner@ + seq!['/'] + repo@;
        assert(repo_id@ == whole);
        let n = repo.as_str().unicode_len();
        let mut i: usize = 0;
        while i < n
            invariant
                n == repo@.len(),
                i <= n,
                forall|j: int| 0 <= j < i ==> repo@[j] != '/',
                whole == owner@ + seq!['/'] + repo@,
                repo_id@ == whole,
                crate::services::workflow::slash_free(owner@),
                *self == *old(self),
            decreases n - i,
        {
            if repo.as_str().get_char(i) == '/' {
                proof {
                    let k = owner@.len() as int;
                    assert(whole[k] == '/');
                    assert(whole[k + 1 + i] == repo@[i as int]);
                    assert(repo_id@[k] == '/');
                    assert(repo_id@[k + 1 + i] == '/');
                    if owner_repo_form(repo_id@) {
                        let w = choose|w: int| 0 <= w < repo_id@.len() && #[trigger] repo_id@[w] == '/' && (forall|j: int|
                            0 <= j < repo_id@.len() && j != w ==> repo_id@[j] != '/');
                        if w != k {
                            assert(repo_id@[k] != '/');
                        } else {
                            assert(repo_id@[k + 1 + i] != '/');
                        }
                    }
                }
                self.error_message = UiMessage::Text(owned("Invalid repo format. Use 'owner/repo'"));
                return None;
            }
            i = i + 1;
        }
        proof {
            let k = owner@.len() as int;
            assert(whole[k] == '/');
            assert forall|j: int| 0 <= j < repo_id@.len() && j != k implies repo_id@[j] != '/' by {
                if j < k {
                    assert(whole[j] == owner@[j]);
                } else {
                    assert(whole[j] == repo@[j - k - 1]);
                }
            }
            assert(repo_id@[k] == '/');
            assert(owner_repo_form(repo_id@));
        }
        if !self.has_github {
            self.error_message = UiMessage::Text(owned("GitHub not authenticated"));
            return None;
        }
        if !channel_ready {
            self.error_message = UiMessage::Text(owned("Service channel not ready"));
            return None;
        }
        self.loading = true;
        self.error_message = UiMessage::Empty;
        self.op_state = ProjectOpState::AddingRepoToProject { project_id, repo_id: owned(repo_id) };
        Some((owner, repo))
    }

    /// Start linking `repo_id` to the project at `project_index`.  A running
    /// operation makes this a no-op; an invalid index is reported.
    pub fn add_repo_to_project(
        &mut self,
        project_index: i32,
        repo_id: &str,
        store_available: bool,
        github_available: bool,
        channel_ready: bool,
    ) -> (r: Option<(String, String)>)
        ensures
            ({
                let m = project_initialized(*old(self), store_available, github_available);
                if m.op_state != ProjectOpState::Idle {
                    r is None && *final(self) == m
                } else if !valid_index(project_index, m.projects@.len()) {
                    &&& r is None
                    &&& shows(final(self).error_message, "Invalid project index"@)
                    &&& *final(self) == (ProjectModel { error_message: final(self).error_message, ..m })
                } else if !owner_repo_form(repo_id@) || !m.has_github || !channel_ready {
                    &&& r is None
                    &&& *final(self) == (ProjectModel { error_message: final(self).error_message, ..m })
                } else {
                    &&& r matches Some((owner, repo)) && repo_id@ == owner@ + seq!['/'] + repo@
                    &&& final(self).op_state matches ProjectOpState::AddingRepoToProject { project_id: p, repo_id: q }
                        && p@ == m.projects@[project_index as int].id@ && q@ == repo_id@
                    &&& *final(self) == (ProjectModel {
                        loading: true,
                        error_message: UiMessage::Empty,
                        op_state: final(self).op_state,
                        ..m
                    })
                }
            }),
    {
        self.ensure_initialized(store_available, github_available);
        match self.op_state {
            ProjectOpState::Idle => {},
            _ => return None,
        }
        let project_id = match self.get_project(project_index) {
            Some(p) => owned(p.id.as_str()),
            None => {
                self.error_message = UiMessage::Text(owned("Invalid project index"));
                return None;
            },
        };
        self.start_adding_repo(project_id, repo_id, channel_ready)
    }

    /// Start linking `repo_id` to the project with id `project_id`.  A
    /// running operation makes this a no-op.
    pub fn add_repo_to_project_by_id(
        &mut self,
        project_id: &str,
        repo_id: &str,
        store_available: bool,
        github_available: bool,
        channel_ready: bool,
    ) -> (r: Option<(String, String)>)
        ensures
            ({
                let m = project_initialized(*old(self), store_available, github_available);
                if m.op_state != ProjectOpState::Idle {
                    r is None && *final(self) == m
                } else if !owner_repo_form(repo_id@) || !m.has_github || !channel_ready {
                    &&& r is None
                    &&& *final(self) == (ProjectModel { error_message: final(self).error_message, ..m })
                } else {
                    &&& r matches Some((owner, repo)) && repo_id@ == owner@ + seq!['/'] + repo@
                    &&& final(self).op_state matches ProjectOpState::AddingRepoToProject { project_id: p, repo_id: q }
                        && p@ == project_id@ && q@ == repo_id@
                    &&& *final(self) == (ProjectModel {
                        loading: true,
                        error_message: UiMessage::Empty,
                        op_state: final(self).op_state,
                        ..m
                    })
                }
            }),
    {
        self.ensure_initialized(store_available, github_available);
        match self.op_state {
            ProjectOpState::Idle => {},
            _ => return None,
        }
        self.start_adding_repo(owned(project_id), repo_id, channel_ready)
    }

    /// Apply the completion of the GitHub check of a repository being
    /// linked.  Outside that operation the message is dropped.  Returns the
    /// project and repository ids to link in the store, when the repository
    /// exists and the store is attached.
    pub fn poll_channel(&mut self, msg: ProjectServiceMessage) -> (r: Option<(String, String)>)
        ensures
            match old(self).op_state {
                ProjectOpState::Idle => r is None && *final(self) == *old(self),
                ProjectOpState::AddingRepoToProject { project_id, repo_id } => match msg {
                    ProjectServiceMessage::FetchRepoDone(Ok(_)) => if old(self).has_store {
                        &&& r == Some((project_id, repo_id))
                        &&& *final(self) == (ProjectModel { op_state: ProjectOpState::Idle, ..*old(self) })
                    } else {
                        &&& r is None
                        &&& shows(final(self).error_message, "Project store not initialized"@)
                        &&& *final(self) == (ProjectModel {
                            op_state: ProjectOpState::Idle,
                            loading: false,
                            error_message: final(self).error_message,
                            ..*old(self)
                        })
                    },
                    ProjectServiceMessage::FetchRepoDone(Err(e)) => {
                        &&& r is None
                        &&& shows(final(self).error_message, "Failed to fetch repo: "@ + project_error_text(e))
                        &&& *final(self) == (ProjectModel {
                            op_state: ProjectOpState::Idle,
                            loading: false,
                            error_message: final(self).error_message,
                            ..*old(self)
                        })
                    },
                },
            },
    {
        let mut state = ProjectOpState::Idle;
        std::mem::swap(&mut state, &mut self.op_state);
        let ids = match state {
            ProjectOpState::AddingRepoToProject { project_id, repo_id } => (project_id, repo_id),
            ProjectOpState::Idle => return None,
        };
        match msg {
            ProjectServiceMessage::FetchRepoDone(Ok(_info)) => {
                if self.has_store {
                    Some(ids)
                } else {
                    self.error_message = UiMessage::Text(owned("Project store not initialized"));
                    self.loading = false;
                    None
                }
            },
            ProjectServiceMessage::FetchRepoDone(Err(e)) => {
                self.error_message = UiMessage::Text(concat("Failed to fetch repo: ", e.message().as_str()));
                self.loading = false;
                None
            },
        }
    }

    /// Apply the store's answer to linking a repository to a project.
    pub fn handle_repo_added(&mut self, result: Result<(), StoreError>) -> (e: ProjectEffect)
        ensures
            match result {
                Ok(()) => {
                    &&& *final(self) == (ProjectModel { loading: false, ..*old(self) })
                    &&& e == (ProjectEffect { reload_counts: true, projects_changed: true, ..no_project_effect() })
                },
                Err(err) => {
                    &&& shows(final(self).error_message, store_failure_text(err, "Failed to add repo: "@))
                    &&& *final(self) == (ProjectModel { loading: false, error_message: final(self).error_message, ..*old(self) })
                    &&& e == no_project_effect()
                },
            },
    {
        self.loading = false;
        match result {
            Ok(()) => ProjectEffect { reload_counts: true, projects_changed: true, auth_changed: false },
            Err(err) => {
                self.error_message = store_failure(err, "Failed to add repo: ");
                ProjectEffect { reload_counts: false, projects_changed: false, auth_changed: false }
            },
        }
    }

    /// Apply the store's answer to unlinking a repository from the project
    /// at `index`.  Without a valid index or a store nothing was asked and
    /// nothing changes.
    pub fn remove_repo_from_project(&mut self, index: i32, result: Result<(), StoreError>) -> (e: ProjectEffect)
        ensures
            !(old(self).has_store && valid_index(index, old(self).projects@.len())) ==> *final(self) == *old(self) && e == no_project_effect(),
            old(self).has_store && valid_index(index, old(self).projects@.len()) ==> match result {
                Ok(()) => *final(self) == *old(self) && e == (ProjectEffect { reload_counts: true, projects_changed: true, ..no_project_effect() }),
                Err(err) => {
                    &&& shows(final(self).error_message, store_failure_text(err, "Failed to remove repo: "@))
                    &&& *final(self) == (ProjectModel { error_message: final(self).error_message, ..*old(self) })
                    &&& e == no_project_effect()
                },
            },
    {
        let quiet = ProjectEffect { reload_counts: false, projects_changed: false, auth_changed: false };
        if !self.has_store || index < 0 || index as usize >= self.projects.len() {
            return quiet;
        }
        match result {
            Ok(()) => ProjectEffect { reload_counts: true, projects_changed: true, auth_changed: false },
            Err(err) => {
                self.error_message = store_failure(err, "Failed to remove repo: ");
                quiet
            },
        }
    }

    /// Apply the store's answer to deleting the project at `index`: on
    /// success the project and its counts leave the list.  Without a valid
    /// index or a store nothing was asked and nothing changes.
    pub fn remove_project(&mut self, index: i32, result: Result<(), StoreError>) -> (e: ProjectEffect)
        requires
            old(self).well_formed(),
        ensures
            final(self).well_formed(),
            !(old(self).has_store && valid_index(index, old(self).projects@.len())) ==> *final(self) == *old(self) && e == no_project_effect(),
            old(self).has_store && valid_index(index, old(self).projects@.len()) ==> match result {
                Ok(()) => {
                    &&& final(self).projects@ == old(self).projects@.remove(index as int)
                    &&& final(self).counts@ == old(self).counts@.remove(index as int)
                    &&& *final(self) == (ProjectModel { projects: final(self).projects, counts: final(self).counts, ..*old(self) })
                    &&& e == (ProjectEffect { projects_changed: true, ..no_project_effect() })
                },
                Err(err) => {
                    &&& shows(final(self).error_message, store_failure_text(err, "Failed to delete project: "@))
                    &&& *final(self) == (ProjectModel { error_message: final(self).error_message, ..*old(self) })
                    &&& e == no_project_effect()
                },
            },
    {
        let quiet = ProjectEffect { reload_counts: false, projects_changed: false, auth_changed: false };
        if !self.has_store || index < 0 || index as usize >= self.projects.len() {
            return quiet;
        }
        match result {
            Ok(()) => {
                let i = index as usize;
                self.projects.remove(i);
                self.counts.remove(i);
                ProjectEffect { reload_counts: false, projects_changed: true, auth_changed: false }
            },
            Err(err) => {
                self.error_message = store_failure(err, "Failed to delete project: ");
                quiet
            },
        }
    }

    /// Refresh the task counts of the projects (from local data only) and
    /// redraw the list; the index is not needed for that.
    pub fn sync_project(&self, index: i32) -> (e: ProjectEffect)
        ensures
            e == (ProjectEffect { reload_counts: true, projects_changed: true, ..no_project_effect() }),
    {
        ProjectEffect { reload_counts: true, projects_changed: true, auth_changed: false }
    }

    /// Refresh the authentication flag: the GitHub client is dropped and
    /// fetched again, so that it is attached exactly when the services offer
    /// one; the store is attached if it was missing; and `auth_changed` is
    /// raised exactly when the flag changes.
    pub fn check_auth(&mut self, store_available: bool, github_available: bool) -> (e: ProjectEffect)
        ensures
            *final(self) == (ProjectModel {
                authenticated: github_available,
                has_github: github_available,
                ..project_initialized(*old(self), store_available, github_available)
            }),
            final(self).has_github == final(self).authenticated,
            e == (ProjectEffect { auth_changed: old(self).authenticated != github_available, ..no_project_effect() }),
    {
        let was = self.authenticated;
        self.has_github = false;
        self.ensure_initialized(store_available, github_available);
        self.has_github = github_available;
        self.authenticated = github_available;
        ProjectEffect { reload_counts: false, projects_changed: false, auth_changed: was != github_available }
    }
}

} // verus!
