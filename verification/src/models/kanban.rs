use vstd::prelude::*;

use crate::json::lists::{int_list_to_json, json_int_list, json_string_list, string_list_to_json};
use crate::models::{valid_index, UiMessage};
use crate::models::project::shows;
use crate::stamp::{is_rfc3339_timestamp, is_v4_uuid_text, new_uuid_v4, now_rfc3339};
use crate::text::{lowercase, opt_string, opt_view, optional_text, owned, to_lowercase, trim, trim_spec};
use vstd::string::StrSliceExecFns;

verus! {

/// Column of a task on the kanban board.
#[derive(Debug, Clone, Copy, PartialEq, Eq, Structural)]
pub enum TaskStatus {
    Backlog,
    Todo,
    InProgress,
    Blocked,
    Review,
    Done,
}

/// A task of a project.
#[derive(Debug, Clone, PartialEq, Eq)]
pub struct Task {
    pub id: String,
    pub project_id: String,
    pub title: String,
    pub body: Option<String>,
    pub status: TaskStatus,
    pub created_at: String,
    pub updated_at: String,
}

/// The status a lowercase status name denotes; unknown names mean `Todo`.
pub open spec fn status_of_name(s: Seq<char>) -> TaskStatus {
    if s == "backlog"@ {
        TaskStatus::Backlog
    } else if s == "todo"@ {
        TaskStatus::Todo
    } else if s == "in_progress"@ || s == "in-progress"@ || s == "inprogress"@ {
        TaskStatus::InProgress
    } else if s == "blocked"@ {
        TaskStatus::Blocked
    } else if s == "review"@ {
        TaskStatus::Review
    } else if s == "done"@ {
        TaskStatus::Done
    } else {
        TaskStatus::Todo
    }
}

/// The status a status string denotes, compared case-insensitively.
pub open spec fn status_of_text(s: Seq<char>) -> TaskStatus {
    status_of_name(lowercase(s))
}

/// The name of a status.
pub open spec fn status_name(s: TaskStatus) -> Seq<char> {
    match s {
        TaskStatus::Backlog => "backlog"@,
        TaskStatus::Todo => "todo"@,
        TaskStatus::InProgress => "in_progress"@,
        TaskStatus::Blocked => "blocked"@,
        TaskStatus::Review => "review"@,
        TaskStatus::Done => "done"@,
    }
}

/// The status of a lowercase status name.
pub fn status_from_name(s: &str) -> (r: TaskStatus)
    ensures
        r == status_of_name(s@),
{
    if crate::text::str_eq(s, "backlog") {
        TaskStatus::Backlog
    } else if crate::text::str_eq(s, "todo") {
        TaskStatus::Todo
    } else if crate::text::str_eq(s, "in_progress") || crate::text::str_eq(s, "in-progress")
        || crate::text::str_eq(s, "inprogress") {
        TaskStatus::InProgress
    } else if crate::text::str_eq(s, "blocked") {
        TaskStatus::Blocked
    } else if crate::text::str_eq(s, "review") {
        TaskStatus::Review
    } else if crate::text::str_eq(s, "done") {
        TaskStatus::Done
    } else {
        TaskStatus::Todo
    }
}

/// The status a status string denotes, compared case-insensitively;
/// `in_progress`, `in-progress` and `inprogress` all mean in progress, and
/// unknown names mean `Todo`.
pub fn status_from_string(s: &str) -> (r: TaskStatus)
    ensures
        r == status_of_text(s@),
{
    let lower = to_lowercase(s);
    status_from_name(lower.as_str())
}

/// The name of a status.
pub fn status_to_string(status: TaskStatus) -> (r: &'static str)
    ensures
        r@ == status_name(status),
{
    match status {
        TaskStatus::Backlog => "backlog",
        TaskStatus::Todo => "todo",
        TaskStatus::InProgress => "in_progress",
        TaskStatus::Blocked => "blocked",
        TaskStatus::Review => "review",
        TaskStatus::Done => "done",
    }
}

/// Indices of the tasks that have `status`, in order.
pub open spec fn indices_with_status(tasks: Seq<Task>, status: TaskStatus) -> Seq<i32>
    decreases tasks.len(),
{
    if tasks.len() == 0 {
        Seq::empty()
    } else if tasks.last().status == status {
        indices_with_status(tasks.drop_last(), status).push((tasks.len() - 1) as i32)
    } else {
        indices_with_status(tasks.drop_last(), status)
    }
}

/// Number of tasks that have `status`.
pub open spec fn count_with_status(tasks: Seq<Task>, status: TaskStatus) -> nat {
    indices_with_status(tasks, status).len()
}

/// A copy of an optional string.
pub fn copy_opt(o: &Option<String>) -> (r: Option<String>)
    ensures
        r == *o,
{
    match o {
        Some(s) => Some(s.clone()),
        None => None,
    }
}

/// State of the kanban board of one project.
#[derive(Debug, Clone)]
pub struct KanbanModel {
    pub loading: bool,
    pub error_message: UiMessage,
    pub project_id: String,
    /// JSON list of the repository ids linked to the project.
    pub repo_ids: String,
    pub tasks: Vec<Task>,
    /// Whether the project store is available.
    pub has_store: bool,
}

impl KanbanModel {
    /// An empty board with no store attached.
    pub fn new() -> (r: Self)
        ensures
            !r.loading && !r.has_store,
            r.error_message == UiMessage::Empty,
            r.project_id@.len() == 0 && r.repo_ids@.len() == 0,
            r.tasks@.len() == 0,
    {
        KanbanModel {
            loading: false,
            error_message: UiMessage::Empty,
            project_id: String::new(),
            repo_ids: String::new(),
            tasks: Vec::new(),
            has_store: false,
        }
    }

    /// The task at `index`, if the index is valid.
    pub fn get_task(&self, index: i32) -> (r: Option<&Task>)
        ensures
            valid_index(index, self.tasks@.len()) ==> r == Some(&self.tasks@[index as int]),
            !valid_index(index, self.tasks@.len()) ==> r is None,
    {
        if index < 0 {
            return None;
        }
        if (index as usize) < self.tasks.len() {
            Some(&self.tasks[index as usize])
        } else {
            None
        }
    }

    /// Number of tasks.
    pub fn row_count(&self) -> (r: i32)
        ensures
            r == self.tasks@.len() as i32,
    {
        self.tasks.len() as i32
    }

    /// The number shown for the task at `index`: its position counted from one.
    pub fn get_task_number(&self, index: i32) -> (r: i32)
        requires
            index < i32::MAX,
        ensures
            r == index + 1,
    {
        index + 1
    }

    /// Repository of a task; tasks are not tied to one repository.
    pub fn get_repo_id(&self, task_index: i32) -> (r: String)
        ensures
            r@.len() == 0,
    {
        String::new()
    }

    /// Title of the task at `index`, empty for an invalid index.
    pub fn get_title(&self, index: i32) -> (r: String)
        ensures
            valid_index(index, self.tasks@.len()) ==> r@ == self.tasks@[index as int].title@,
            !valid_index(index, self.tasks@.len()) ==> r@.len() == 0,
    {
        match self.get_task(index) {
            Some(t) => t.title.clone(),
            None => String::new(),
        }
    }

    /// Body of the task at `index`, empty when it has none.
    pub fn get_body(&self, index: i32) -> (r: String)
        ensures
            valid_index(index, self.tasks@.len()) && self.tasks@[index as int].body is Some ==> r@
                == self.tasks@[index as int].body.unwrap()@,
            !(valid_index(index, self.tasks@.len()) && self.tasks@[index as int].body is Some) ==> r@.len() == 0,
    {
        match self.get_task(index) {
            Some(t) => match &t.body {
                Some(b) => b.clone(),
                None => String::new(),
            },
            None => String::new(),
        }
    }

    /// Status name of the task at `index`, empty for an invalid index.
    pub fn get_status(&self, index: i32) -> (r: String)
        ensures
            valid_index(index, self.tasks@.len()) ==> r@ == status_name(self.tasks@[index as int].status),
            !valid_index(index, self.tasks@.len()) ==> r@.len() == 0,
    {
        match self.get_task(index) {
            Some(t) => crate::text::owned(status_to_string(t.status)),
            None => String::new(),
        }
    }

    /// Indices of the tasks whose status is `status`.
    fn indices_for(&self, status: TaskStatus) -> (r: Vec<i32>)
        requires
            self.tasks@.len() <= i32::MAX,
        ensures
            r@ == indices_with_status(self.tasks@, status),
    {
        let mut out: Vec<i32> = Vec::new();
        let mut i: usize = 0;
        while i < self.tasks.len()
            invariant
                i <= self.tasks@.len() <= i32::MAX,
                out@ == indices_with_status(self.tasks@.subrange(0, i as int), status),
            decreases self.tasks.len() - i,
        {
            assert(self.tasks@.subrange(0, i + 1).drop_last() =~= self.tasks@.subrange(0, i as int));
            if self.tasks[i].status == status {
                out.push(i as i32);
            }
            i = i + 1;
        }
        assert(self.tasks@.subrange(0, self.tasks@.len() as int) =~= self.tasks@);
        out
    }

    /// Number of tasks whose status is the one `status` names.
    pub fn count_by_status(&self, status: &str) -> (r: i32)
        requires
            self.tasks@.len() <= i32::MAX,
        ensures
            r == count_with_status(self.tasks@, status_of_text(status@)),
    {
        let target = status_from_string(status);
        let v = self.indices_for(target);
        proof {
            lemma_indices_bounded(self.tasks@, target);
        }
        v.len() as i32
    }

    /// JSON list of the indices of the tasks whose status is the one
    /// `status` names.
    pub fn tasks_for_status(&self, status: &str) -> (r: String)
        requires
            self.tasks@.len() <= i32::MAX,
        ensures
            r@ == json_int_list(indices_with_status(self.tasks@, status_of_text(status@))),
    {
        let target = status_from_string(status);
        let v = self.indices_for(target);
        int_list_to_json(&v)
    }

    /// Attach the project store on first use, if the services offer one.
    pub fn ensure_initialized(&mut self, store_available: bool)
        ensures
            *final(self) == (KanbanModel { has_store: old(self).has_store || store_available, ..*old(self) }),
    {
        if !self.has_store {
            self.has_store = store_available;
        }
    }

    /// Open the board of project `project_id`.  The store's answers are
    /// passed in: whether the project exists (`Err` carries the error's user
    /// message), its linked repositories, and its tasks; the later answers
    /// are only consulted once the earlier ones allow it.  Returns whether
    /// the tasks changed.
    pub fn load_project(
        &mut self,
        project_id: &str,
        store_available: bool,
        exists: Result<bool, String>,
        repos: Result<Vec<String>, String>,
        tasks: Result<Vec<Task>, String>,
    ) -> (changed: bool)
        ensures
            ({
                let m = KanbanModel { has_store: old(self).has_store || store_available, ..*old(self) };
                if !m.has_store {
                    &&& !changed
                    &&& shows(final(self).error_message, "Project store not initialized"@)
                    &&& *final(self) == (KanbanModel { error_message: final(self).error_message, ..m })
                } else {
                    &&& final(self).project_id@ == project_id@
                    &&& match exists {
                        Err(msg) => {
                            &&& !changed
                            &&& shows(final(self).error_message, msg@)
                            &&& final(self).repo_ids@ == "[]"@
                            &&& *final(self) == (KanbanModel {
                                loading: false,
                                error_message: final(self).error_message,
                                project_id: final(self).project_id,
                                repo_ids: final(self).repo_ids,
                                ..m
                            })
                        },
                        Ok(false) => {
                            &&& !changed
                            &&& shows(final(self).error_message, "Project not found"@)
                            &&& final(self).repo_ids@ == "[]"@
                            &&& *final(self) == (KanbanModel {
                                loading: false,
                                error_message: final(self).error_message,
                                project_id: final(self).project_id,
                                repo_ids: final(self).repo_ids,
                                ..m
                            })
                        },
                        Ok(true) => {
                            &&& final(self).repo_ids@ == json_string_list(match repos {
                                Ok(ids) => ids@.map_values(|s: String| s@),
                                Err(_) => Seq::<Seq<char>>::empty(),
                            })
                            &&& match tasks {
                                Ok(ts) => {
                                    &&& changed
                                    &&& *final(self) == (KanbanModel {
                                        loading: false,
                                        error_message: UiMessage::Empty,
                                        project_id: final(self).project_id,
                                        repo_ids: final(self).repo_ids,
                                        tasks: ts,
                                        ..m
                                    })
                                },
                                Err(msg) => {
                                    &&& !changed
                                    &&& shows(final(self).error_message, msg@)
                                    &&& *final(self) == (KanbanModel {
                                        loading: false,
                                        error_message: final(self).error_message,
                                        project_id: final(self).project_id,
                                        repo_ids: final(self).repo_ids,
                                        ..m
                                    })
                                },
                            }
                        },
                    }
                }
            }),
    {
        self.ensure_initialized(store_available);
        if !self.has_store {
            self.error_message = UiMessage::Text(owned("Project store not initialized"));
            return false;
        }
        self.loading = true;
        self.error_message = UiMessage::Empty;
        self.project_id = owned(project_id);
        self.repo_ids = owned("[]");
        match exists {
            Ok(true) => {},
            Ok(false) => {
                self.error_message = UiMessage::Text(owned("Project not found"));
                self.loading = false;
                return false;
            },
            Err(msg) => {
                self.error_message = UiMessage::Text(msg);
                self.loading = false;
                return false;
            },
        }
        let ids = match repos {
            Ok(ids) => ids,
            Err(_) => Vec::new(),
        };
        proof {
            assert(ids@.map_values(|s: String| s@) =~= match repos {
                Ok(v) => v@.map_values(|s: String| s@),
                Err(_) => Seq::<Seq<char>>::empty(),
            });
        }
        self.repo_ids = string_list_to_json(&ids);
        match tasks {
            Ok(ts) => {
                self.tasks = ts;
                self.loading = false;
                true
            },
            Err(msg) => {
                self.error_message = UiMessage::Text(msg);
                self.loading = false;
                false
            },
        }
    }

    /// Move the task at `index` to the status `new_status` names: returns
    /// the updated task to store (stamped with the current time), or `None`
    /// when the index is invalid, the task already has that status, or
    /// there is no store.
    pub fn move_task(&mut self, index: i32, new_status: &str, store_available: bool) -> (r: Option<Task>)
        ensures
            *final(self) == (KanbanModel { has_store: old(self).has_store || store_available, ..*old(self) }),
            ({
                let ts = old(self).tasks@;
                if valid_index(index, ts.len()) && ts[index as int].status != status_of_text(new_status@) && final(self).has_store {
                    r matches Some(t) && t == (Task { status: status_of_text(new_status@), updated_at: t.updated_at, ..ts[index as int] })
                        && is_rfc3339_timestamp(t.updated_at@)
                } else {
                    r is None
                }
            }),
    {
        self.ensure_initialized(store_available);
        if index < 0 || index as usize >= self.tasks.len() {
            return None;
        }
        let status = status_from_string(new_status);
        if self.tasks[index as usize].status == status {
            return None;
        }
        if !self.has_store {
            return None;
        }
        let t = &self.tasks[index as usize];
        Some(Task {
            id: t.id.clone(),
            project_id: t.project_id.clone(),
            title: t.title.clone(),
            body: copy_opt(&t.body),
            status,
            created_at: t.created_at.clone(),
            updated_at: now_rfc3339(),
        })
    }

    /// Check a new task and make the record to store: a fresh id, this
    /// board's project, the trimmed title, the trimmed body (absent when
    /// blank), the status `status` names, and the current time.  Returns
    /// `None` with the reason in the error message for a blank title or a
    /// missing store.
    pub fn create_task(&mut self, title: &str, body: &str, status: &str, store_available: bool) -> (r: Option<Task>)
        ensures
            ({
                let m = KanbanModel { has_store: old(self).has_store || store_available, ..*old(self) };
                if trim_spec(title@).len() == 0 {
                    &&& r is None
                    &&& shows(final(self).error_message, "Task title cannot be empty"@)
                    &&& *final(self) == (KanbanModel { error_message: final(self).error_message, ..m })
                } else if !m.has_store {
                    &&& r is None
                    &&& shows(final(self).error_message, "Project store not initialized"@)
                    &&& *final(self) == (KanbanModel { error_message: final(self).error_message, ..m })
                } else {
                    &&& *final(self) == m
                    &&& r matches Some(t) && {
                        &&& t.id@.len() == 36
                        &&& is_v4_uuid_text(t.id@)
                        &&& is_rfc3339_timestamp(t.created_at@)
                        &&& t.project_id@ == m.project_id@
                        &&& t.title@ == trim_spec(title@)
                        &&& opt_view(t.body) == optional_text(body@)
                        &&& t.status == status_of_text(status@)
                        &&& t.created_at@ == t.updated_at@
                    }
                }
            }),
    {
        self.ensure_initialized(store_available);
        let t = trim(title);
        if t.unicode_len() == 0 {
            self.error_message = UiMessage::Text(owned("Task title cannot be empty"));
            return None;
        }
        let st = status_from_string(status);
        let now = now_rfc3339();
        let task = Task {
            id: new_uuid_v4(),
            project_id: owned(self.project_id.as_str()),
            title: owned(t),
            body: opt_string(body),
            status: st,
            created_at: owned(now.as_str()),
            updated_at: now,
        };
        if !self.has_store {
            self.error_message = UiMessage::Text(owned("Project store not initialized"));
            return None;
        }
        Some(task)
    }

    /// Apply the store's answer to saving a new task (`Err` carries the
    /// error's user message).  Returns whether the tasks changed.
    pub fn task_created(&mut self, task: Task, result: Result<(), String>) -> (changed: bool)
        ensures
            match result {
                Ok(()) => changed && *final(self) == (KanbanModel { tasks: final(self).tasks, ..*old(self) })
                    && final(self).tasks@ == old(self).tasks@.push(task),
                Err(msg) => !changed && shows(final(self).error_message, msg@)
                    && *final(self) == (KanbanModel { error_message: final(self).error_message, ..*old(self) }),
            },
    {
        match result {
            Ok(()) => {
                self.tasks.push(task);
                true
            },
            Err(msg) => {
                self.error_message = UiMessage::Text(msg);
                false
            },
        }
    }

    /// Edit the task at `index`: returns the updated task to store, with
    /// the trimmed title, the trimmed body (absent when blank) and the
    /// current time, or `None` for an invalid index, a blank title (reported)
    /// or a missing store.
    pub fn update_task(&mut self, index: i32, title: &str, body: &str, store_available: bool) -> (r: Option<Task>)
        ensures
            ({
                let m = KanbanModel { has_store: old(self).has_store || store_available, ..*old(self) };
                let ts = m.tasks@;
                if !valid_index(index, ts.len()) {
                    r is None && *final(self) == m
                } else if trim_spec(title@).len() == 0 {
                    &&& r is None
                    &&& shows(final(self).error_message, "Task title cannot be empty"@)
                    &&& *final(self) == (KanbanModel { error_message: final(self).error_message, ..m })
                } else if !m.has_store {
                    r is None && *final(self) == m
                } else {
                    &&& *final(self) == m
                    &&& r matches Some(t) && {
                        &&& t.title@ == trim_spec(title@)
                        &&& opt_view(t.body) == optional_text(body@)
                        &&& t == (Task { title: t.title, body: t.body, updated_at: t.updated_at, ..ts[index as int] })
                        &&& is_rfc3339_timestamp(t.updated_at@)
                    }
                }
            }),
    {
        self.ensure_initialized(store_available);
        if index < 0 || index as usize >= self.tasks.len() {
            return None;
        }
        let tt = trim(title);
        if tt.unicode_len() == 0 {
            self.error_message = UiMessage::Text(owned("Task title cannot be empty"));
            return None;
        }
        if !self.has_store {
            return None;
        }
        let t = &self.tasks[index as usize];
        Some(Task {
            id: t.id.clone(),
            project_id: t.project_id.clone(),
            title: owned(tt),
            body: opt_string(body),
            status: t.status,
            created_at: t.created_at.clone(),
            updated_at: now_rfc3339(),
        })
    }

    /// Apply the store's answer to saving an edited or moved task (`Err`
    /// carries the error's user message): on success it replaces the task at
    /// `index` (if that index is still valid) and the tasks changed.
    pub fn task_saved(&mut self, index: i32, task: Task, result: Result<(), String>) -> (changed: bool)
        ensures
            match result {
                Ok(()) => {
                    &&& changed
                    &&& final(self).tasks@ == if valid_index(index, old(self).tasks@.len()) {
                        old(self).tasks@.update(index as int, task)
                    } else {
                        old(self).tasks@
                    }
                    &&& *final(self) == (KanbanModel { tasks: final(self).tasks, ..*old(self) })
                },
                Err(msg) => !changed && shows(final(self).error_message, msg@)
                    && *final(self) == (KanbanModel { error_message: final(self).error_message, ..*old(self) }),
            },
    {
        match result {
            Ok(()) => {
                if index >= 0 && (index as usize) < self.tasks.len() {
                    self.tasks.set(index as usize, task);
                }
                true
            },
            Err(msg) => {
                self.error_message = UiMessage::Text(msg);
                false
            },
        }
    }
}

/// There are no more matching indices than tasks.
pub proof fn lemma_indices_bounded(tasks: Seq<Task>, status: TaskStatus)
    ensures
        indices_with_status(tasks, status).len() <= tasks.len(),
    decreases tasks.len(),
{
    if tasks.len() > 0 {
        lemma_indices_bounded(tasks.drop_last(), status);
    }
}

/// Every task sits in exactly one column: the counts of the six statuses
/// add up to the number of tasks.
pub proof fn law_columns_partition_tasks(tasks: Seq<Task>)
    ensures
        count_with_status(tasks, TaskStatus::Backlog) + count_with_status(tasks, TaskStatus::Todo)
            + count_with_status(tasks, TaskStatus::InProgress) + count_with_status(tasks, TaskStatus::Blocked)
            + count_with_status(tasks, TaskStatus::Review) + count_with_status(tasks, TaskStatus::Done) == tasks.len(),
    decreases tasks.len(),
{
    if tasks.len() > 0 {
        law_columns_partition_tasks(tasks.drop_last());
    }
}

/// Moving the task at `i` to another column takes it out of its old
/// column and puts it into the new one; every other column keeps its count.
pub proof fn law_move_shifts_one_task(tasks: Seq<Task>, i: int, moved: Task)
    requires
        0 <= i < tasks.len(),
        moved.status != tasks[i].status,
    ensures
        count_with_status(tasks.update(i, moved), moved.status) == count_with_status(tasks, moved.status) + 1,
        count_with_status(tasks.update(i, moved), tasks[i].status) + 1 == count_with_status(tasks, tasks[i].status),
        forall|s: TaskStatus| s != moved.status && s != tasks[i].status ==> #[trigger] count_with_status(
            tasks.update(i, moved), s) == count_with_status(tasks, s),
    decreases tasks.len(),
{
    let after = tasks.update(i, moved);
    if i == tasks.len() - 1 {
        assert(after.drop_last() =~= tasks.drop_last());
    } else {
        law_move_shifts_one_task(tasks.drop_last(), i, moved);
        assert(after.drop_last() =~= tasks.drop_last().update(i, moved));
    }
    assert forall|s: TaskStatus| s != moved.status && s != tasks[i].status implies #[trigger] count_with_status(
        after, s) == count_with_status(tasks, s) by {
        if i < tasks.len() - 1 {
            assert(count_with_status(tasks.drop_last().update(i, moved), s) == count_with_status(tasks.drop_last(), s));
        }
    }
}

/// Reading the name of a status gives that status back, for every status,
/// and different statuses have different names; the three spellings of
/// "in progress" all read as in progress.
pub proof fn law_status_names_read_back(st: TaskStatus, other: TaskStatus)
    ensures
        status_of_name(status_name(st)) == st,
        st != other ==> status_name(st) != status_name(other),
        status_of_name("in-progress"@) == TaskStatus::InProgress,
        status_of_name("inprogress"@) == TaskStatus::InProgress,
{
    reveal_strlit("backlog");
    reveal_strlit("todo");
    reveal_strlit("in_progress");
    reveal_strlit("in-progress");
    reveal_strlit("inprogress");
    reveal_strlit("blocked");
    reveal_strlit("review");
    reveal_strlit("done");
    assert("todo"@[0] != "done"@[0]);
    assert("review"@.len() != "backlog"@.len() && "review"@.len() != "todo"@.len() && "review"@.len() != "in_progress"@.len() && "review"@.len() != "blocked"@.len());
    assert("done"@.len() != "backlog"@.len() && "done"@.len() != "in_progress"@.len() && "done"@.len() != "blocked"@.len() && "done"@.len() != "in-progress"@.len() && "done"@.len() != "inprogress"@.len());
    assert("blocked"@.len() != "todo"@.len() && "blocked"@.len() != "in_progress"@.len() && "blocked"@.len() != "in-progress"@.len() && "blocked"@.len() != "inprogress"@.len());
    assert("backlog"@[1] != "blocked"@[1]);
    assert("in_progress"@.len() != "backlog"@.len() && "in_progress"@.len() != "todo"@.len());
    assert("in-progress"@.len() != "backlog"@.len() && "in-progress"@.len() != "todo"@.len());
    assert("inprogress"@.len() != "backlog"@.len() && "inprogress"@.len() != "todo"@.len());
    assert("review"@.len() != "in-progress"@.len() && "review"@.len() != "inprogress"@.len());
    let a = status_name(st);
    let b = status_name(other);
    if st != other && a.len() == b.len() {
        assert(a[0] != b[0] || a[1] != b[1]);
    }
}

} // verus!
