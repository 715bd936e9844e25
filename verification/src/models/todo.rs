use vstd::prelude::*;

use crate::models::{ui_text, valid_index, UiMessage};

verus! {

/// Progress of a todo item.
#[derive(Debug, Clone, Copy, PartialEq, Eq, Structural)]
pub enum TodoStatus {
    Pending,
    InProgress,
    Completed,
}

/// The numeric code the view uses for a status.
pub open spec fn todo_status_code(s: TodoStatus) -> i32 {
    match s {
        TodoStatus::Pending => 0,
        TodoStatus::InProgress => 1,
        TodoStatus::Completed => 2,
    }
}

/// A todo item as the todo service returns it.
#[derive(Debug, Clone, PartialEq, Eq)]
pub struct Todo {
    pub id: Option<u64>,
    pub title: String,
    pub description: Option<String>,
    pub status: TodoStatus,
}

/// A request the todo model hands to the todo service.
#[derive(Debug, Clone, PartialEq, Eq)]
pub enum TodoRequest {
    List,
    Create { title: String, description: Option<String> },
    /// Set the status of the todo with the given id.
    SetStatus { id: u64, status: TodoStatus },
    Delete { id: u64 },
}

/// State of the todo list model.
#[derive(Debug, Clone)]
pub struct TodoModel {
    pub loading: bool,
    pub error_message: UiMessage,
    pub todos: Vec<Todo>,
    /// Whether a todo client is attached.
    pub has_client: bool,
    /// Whether a runtime to run requests on is attached.
    pub has_runtime: bool,
}

/// The request for the todo at `index`, if the index is valid and the todo
/// has an id.
pub open spec fn todo_id_at(todos: Seq<Todo>, index: i32) -> Option<u64> {
    if valid_index(index, todos.len()) {
        todos[index as int].id
    } else {
        None
    }
}

impl TodoModel {
    /// An empty model with no client or runtime.
    pub fn new() -> (r: Self)
        ensures
            !r.loading,
            r.error_message == UiMessage::Empty,
            r.todos@.len() == 0,
            !r.has_client && !r.has_runtime,
    {
        TodoModel {
            loading: false,
            error_message: UiMessage::Empty,
            todos: Vec::new(),
            has_client: false,
            has_runtime: false,
        }
    }

    /// Attach the todo client and the runtime.
    pub fn initialize(&mut self)
        ensures
            *final(self) == (TodoModel { has_client: true, has_runtime: true, ..*old(self) }),
    {
        self.has_client = true;
        self.has_runtime = true;
    }

    /// Fetch the todos.
    pub fn fetch_todos(&mut self) -> (r: Option<TodoRequest>)
        ensures
            !old(self).has_client ==> (final(self).error_message matches UiMessage::Text(t)
                && t@ == "Not initialized"@) && *final(self) == (TodoModel {
                error_message: final(self).error_message,
                ..*old(self)
            }) && r is None,
            old(self).has_client && !old(self).has_runtime ==> *final(self) == *old(self) && r is None,
            old(self).has_client && old(self).has_runtime ==> *final(self) == (TodoModel {
                loading: true,
                error_message: UiMessage::Empty,
                ..*old(self)
            }) && r == Some(TodoRequest::List),
    {
        if !self.has_client {
            self.error_message = ui_text("Not initialized");
            return None;
        }
        if !self.has_runtime {
            return None;
        }
        self.loading = true;
        self.error_message = UiMessage::Empty;
        Some(TodoRequest::List)
    }

    /// Add a todo; an empty description is left out.
    pub fn add_todo(&mut self, title: &str, description: &str) -> (r: Option<TodoRequest>)
        ensures
            !old(self).has_client ==> (final(self).error_message matches UiMessage::Text(t)
                && t@ == "Not initialized"@) && *final(self) == (TodoModel {
                error_message: final(self).error_message,
                ..*old(self)
            }) && r is None,
            old(self).has_client && !old(self).has_runtime ==> *final(self) == *old(self) && r is None,
            old(self).has_client && old(self).has_runtime ==> {
                &&& *final(self) == (TodoModel { loading: true, ..*old(self) })
                &&& r matches Some(TodoRequest::Create { title: t, description: d })
                &&& t@ == title@
                &&& description@.len() == 0 ==> d is None
                &&& description@.len() > 0 ==> (d matches Some(x) && x@ == description@)
            },
    {
        if !self.has_client {
            self.error_message = ui_text("Not initialized");
            return None;
        }
        if !self.has_runtime {
            return None;
        }
        let desc = if description.is_empty() {
            None
        } else {
            Some(crate::text::owned(description))
        };
        self.loading = true;
        Some(TodoRequest::Create { title: crate::text::owned(title), description: desc })
    }

    /// Mark the todo at `index` as completed.
    pub fn complete_todo(&self, index: i32) -> (r: Option<TodoRequest>)
        ensures
            todo_id_at(self.todos@, index) is None || !self.has_client || !self.has_runtime ==> r is None,
            self.has_client && self.has_runtime ==> (todo_id_at(self.todos@, index) matches Some(id)
                ==> r == Some(TodoRequest::SetStatus { id, status: TodoStatus::Completed })),
    {
        if index < 0 || index as usize >= self.todos.len() {
            return None;
        }
        let id = match self.todos[index as usize].id {
            Some(id) => id,
            None => return None,
        };
        if !self.has_client || !self.has_runtime {
            return None;
        }
        Some(TodoRequest::SetStatus { id, status: TodoStatus::Completed })
    }

    /// Delete the todo at `index`.
    pub fn delete_todo(&self, index: i32) -> (r: Option<TodoRequest>)
        ensures
            todo_id_at(self.todos@, index) is None || !self.has_client || !self.has_runtime ==> r is None,
            self.has_client && self.has_runtime ==> (todo_id_at(self.todos@, index) matches Some(id)
                ==> r == Some(TodoRequest::Delete { id })),
    {
        if index < 0 || index as usize >= self.todos.len() {
            return None;
        }
        let id = match self.todos[index as usize].id {
            Some(id) => id,
            None => return None,
        };
        if !self.has_client || !self.has_runtime {
            return None;
        }
        Some(TodoRequest::Delete { id })
    }

    /// Number of todos.
    pub fn row_count(&self) -> (r: i32)
        ensures
            r == self.todos@.len() as i32,
    {
        self.todos.len() as i32
    }

    /// Title of the todo at `index`, empty for an invalid index.
    pub fn get_title(&self, index: i32) -> (r: String)
        ensures
            valid_index(index, self.todos@.len()) ==> r@ == self.todos@[index as int].title@,
            !valid_index(index, self.todos@.len()) ==> r@.len() == 0,
    {
        if index < 0 || index as usize >= self.todos.len() {
            return String::new();
        }
        self.todos[index as usize].title.clone()
    }

    /// Description of the todo at `index`, empty when it has none.
    pub fn get_description(&self, index: i32) -> (r: String)
        ensures
            valid_index(index, self.todos@.len()) && self.todos@[index as int].description is Some ==> r@
                == self.todos@[index as int].description.unwrap()@,
            !(valid_index(index, self.todos@.len()) && self.todos@[index as int].description is Some)
                ==> r@.len() == 0,
    {
        if index < 0 || index as usize >= self.todos.len() {
            return String::new();
        }
        match &self.todos[index as usize].description {
            Some(d) => d.clone(),
            None => String::new(),
        }
    }

    /// Status code of the todo at `index`: 0 pending, 1 in progress,
    /// 2 completed; 0 for an invalid index.
    pub fn get_status(&self, index: i32) -> (r: i32)
        ensures
            valid_index(index, self.todos@.len()) ==> r == todo_status_code(self.todos@[index as int].status),
            !valid_index(index, self.todos@.len()) ==> r == 0,
    {
        if index < 0 || index as usize >= self.todos.len() {
            return 0;
        }
        match self.todos[index as usize].status {
            TodoStatus::Pending => 0,
            TodoStatus::InProgress => 1,
            TodoStatus::Completed => 2,
        }
    }

    /// Id of the todo at `index`, 0 when it has none or the index is invalid.
    pub fn get_id(&self, index: i32) -> (r: u64)
        ensures
            r == match todo_id_at(self.todos@, index) {
                Some(id) => id,
                None => 0,
            },
    {
        if index < 0 || index as usize >= self.todos.len() {
            return 0;
        }
        match self.todos[index as usize].id {
            Some(id) => id,
            None => 0,
        }
    }
}

} // verus!
