use myme::models::kanban::{status_from_string, status_to_string, KanbanModel, Task, TaskStatus};
use myme::models::UiMessage;

fn task(id: &str, title: &str, status: TaskStatus) -> Task {
    Task {
        id: id.to_string(),
        project_id: "p1".to_string(),
        title: title.to_string(),
        body: None,
        status,
        created_at: "2024-01-01T00:00:00Z".to_string(),
        updated_at: "2024-01-01T00:00:00Z".to_string(),
    }
}

fn board(tasks: Vec<Task>) -> KanbanModel {
    let mut m = KanbanModel::new();
    let changed = m.load_project("p1", true, Ok(true), Ok(vec!["me/a".to_string(), "me/b".to_string()]), Ok(tasks));
    assert!(changed);
    m
}

#[test]
fn status_names() {
    assert_eq!(status_from_string("In-Progress"), TaskStatus::InProgress);
    assert_eq!(status_from_string("INPROGRESS"), TaskStatus::InProgress);
    assert_eq!(status_from_string("Done"), TaskStatus::Done);
    assert_eq!(status_from_string("backlog"), TaskStatus::Backlog);
    assert_eq!(status_from_string("whatever"), TaskStatus::Todo);
    for s in [
        TaskStatus::Backlog,
        TaskStatus::Todo,
        TaskStatus::InProgress,
        TaskStatus::Blocked,
        TaskStatus::Review,
        TaskStatus::Done,
    ] {
        assert_eq!(status_from_string(status_to_string(s)), s);
    }
}

#[test]
fn loads_a_project_board() {
    let m = board(vec![
        task("t1", "a", TaskStatus::Todo),
        task("t2", "b", TaskStatus::Done),
        task("t3", "c", TaskStatus::Todo),
    ]);
    assert_eq!(m.project_id, "p1");
    assert_eq!(m.repo_ids, r#"["me/a","me/b"]"#);
    assert_eq!(m.row_count(), 3);
    assert_eq!(m.count_by_status("todo"), 2);
    assert_eq!(m.count_by_status("DONE"), 1);
    assert_eq!(m.count_by_status("review"), 0);
    assert_eq!(m.tasks_for_status("todo"), "[0,2]");
    assert_eq!(m.tasks_for_status("review"), "[]");
    assert_eq!(m.get_title(1), "b");
    assert_eq!(m.get_status(1), "done");
    assert!(!m.loading);
}

#[test]
fn load_failures() {
    let mut m = KanbanModel::new();
    assert!(!m.load_project("p1", false, Ok(true), Ok(vec![]), Ok(vec![])));
    assert_eq!(m.error_message, UiMessage::Text("Project store not initialized".to_string()));

    assert!(!m.load_project("p2", true, Ok(false), Ok(vec![]), Ok(vec![])));
    assert_eq!(m.error_message, UiMessage::Text("Project not found".to_string()));
    assert_eq!(m.repo_ids, "[]");

    assert!(!m.load_project("p3", true, Err("db locked".to_string()), Ok(vec![]), Ok(vec![])));
    assert_eq!(m.error_message, UiMessage::Text("db locked".to_string()));

    assert!(!m.load_project("p4", true, Ok(true), Err("x".to_string()), Err("no tasks".to_string())));
    assert_eq!(m.repo_ids, "[]");
    assert_eq!(m.error_message, UiMessage::Text("no tasks".to_string()));
}

#[test]
fn moving_a_task() {
    let mut m = board(vec![task("t1", "a", TaskStatus::Todo)]);
    assert!(m.move_task(0, "todo", true).is_none());
    assert!(m.move_task(3, "done", true).is_none());
    let moved = m.move_task(0, "review", true).unwrap();
    assert_eq!(moved.status, TaskStatus::Review);
    assert_eq!(moved.id, "t1");
    assert_eq!(moved.title, "a");
    assert_ne!(moved.updated_at, "2024-01-01T00:00:00Z");
    // Nothing changes until the store confirms.
    assert_eq!(m.get_status(0), "todo");
    assert!(m.task_saved(0, moved, Ok(())));
    assert_eq!(m.get_status(0), "review");
    assert_eq!(m.count_by_status("review"), 1);
}

#[test]
fn creating_a_task() {
    let mut m = board(vec![]);
    assert!(m.create_task("   ", "body", "todo", true).is_none());
    assert_eq!(m.error_message, UiMessage::Text("Task title cannot be empty".to_string()));
    let t = m.create_task("  Write docs ", "  ", "in_progress", true).unwrap();
    assert_eq!(t.title, "Write docs");
    assert_eq!(t.body, None);
    assert_eq!(t.status, TaskStatus::InProgress);
    assert_eq!(t.project_id, "p1");
    assert_eq!(t.id.len(), 36);
    assert_eq!(t.created_at, t.updated_at);
    assert!(!m.task_created(t.clone(), Err("disk full".to_string())));
    assert_eq!(m.row_count(), 0);
    assert_eq!(m.error_message, UiMessage::Text("disk full".to_string()));
    assert!(m.task_created(t, Ok(())));
    assert_eq!(m.row_count(), 1);
    assert_eq!(m.get_title(0), "Write docs");
}

#[test]
fn editing_a_task() {
    let mut m = board(vec![task("t1", "a", TaskStatus::Blocked)]);
    assert!(m.update_task(0, " ", "", true).is_none());
    assert_eq!(m.error_message, UiMessage::Text("Task title cannot be empty".to_string()));
    let t = m.update_task(0, " b ", " details ", true).unwrap();
    assert_eq!(t.title, "b");
    assert_eq!(t.body.as_deref(), Some("details"));
    assert_eq!(t.status, TaskStatus::Blocked);
    assert_eq!(t.id, "t1");
    assert!(m.task_saved(0, t, Ok(())));
    assert_eq!(m.get_body(0), "details");
    assert!(!m.task_saved(0, task("t1", "c", TaskStatus::Done), Err("conflict".to_string())));
    assert_eq!(m.get_title(0), "b");
}

#[test]
fn store_is_attached_once() {
    let mut m = KanbanModel::new();
    m.ensure_initialized(false);
    assert!(!m.has_store);
    m.ensure_initialized(true);
    assert!(m.has_store);
    m.ensure_initialized(false);
    assert!(m.has_store);
}

#[test]
fn moving_shifts_exactly_one_task_between_columns() {
    let mut m = board(vec![
        task("t1", "a", TaskStatus::Todo),
        task("t2", "b", TaskStatus::Todo),
        task("t3", "c", TaskStatus::Done),
    ]);
    let before: Vec<i32> = ["backlog", "todo", "in_progress", "blocked", "review", "done"]
        .iter()
        .map(|s| m.count_by_status(s))
        .collect();
    let moved = m.move_task(1, "blocked", true).unwrap();
    assert!(m.task_saved(1, moved, Ok(())));
    let after: Vec<i32> = ["backlog", "todo", "in_progress", "blocked", "review", "done"]
        .iter()
        .map(|s| m.count_by_status(s))
        .collect();
    assert_eq!(before, vec![0, 2, 0, 0, 0, 1]);
    assert_eq!(after, vec![0, 1, 0, 1, 0, 1]);
    assert_eq!(after.iter().sum::<i32>(), m.row_count());
}
