use myme::models::kanban::TaskStatus;
use myme::models::project::{Project, ProjectModel, ProjectOpState, TaskCounts};
use myme::models::UiMessage;
use myme::services::project::{ProjectError, ProjectServiceMessage, RepoInfo, StoreError};

fn project(id: &str, name: &str) -> Project {
    Project { id: id.to_string(), name: name.to_string(), description: None, created_at: "2024-01-01T00:00:00Z".to_string() }
}

fn listed(ps: Vec<Project>) -> ProjectModel {
    let mut m = ProjectModel::new();
    let e = m.fetch_projects(true, true, Ok(ps));
    assert!(e.reload_counts);
    assert!(e.projects_changed);
    m
}

fn text(s: &str) -> UiMessage {
    UiMessage::Text(s.to_string())
}

#[test]
fn counts_read_from_store_pairs() {
    let c = TaskCounts::from_status_counts(&[(TaskStatus::Todo, 3), (TaskStatus::Done, 1), (TaskStatus::Todo, 4)]);
    assert_eq!(c.todo, 4);
    assert_eq!(c.done, 1);
    assert_eq!(c.backlog, 0);
    assert_eq!(c.to_json(), r#"{"backlog":0,"todo":4,"in_progress":0,"blocked":0,"review":0,"done":1}"#);
    assert_eq!(TaskCounts::zero().to_json(), r#"{"backlog":0,"todo":0,"in_progress":0,"blocked":0,"review":0,"done":0}"#);
}

#[test]
fn lists_projects_and_their_counts() {
    let mut m = listed(vec![project("p1", "One"), project("p2", "Two")]);
    assert_eq!(m.row_count(), 2);
    assert_eq!(m.get_project_name(1), "Two");
    assert_eq!(m.get_id(0), "p1");
    assert_eq!(m.get_id(5), "");
    m.load_task_counts(Ok(vec![Ok(vec![(TaskStatus::Review, 2)]), Err("locked".to_string())]));
    assert_eq!(m.get_task_counts(0), r#"{"backlog":0,"todo":0,"in_progress":0,"blocked":0,"review":2,"done":0}"#);
    assert_eq!(m.get_task_counts(1), TaskCounts::zero().to_json());
    assert_eq!(m.get_task_counts(-1), TaskCounts::zero().to_json());
    assert_eq!(
        m.get_repos_for_project(0, Ok(vec!["me/a".to_string()])),
        r#"["me/a"]"#
    );
}

#[test]
fn listing_needs_a_store() {
    let mut m = ProjectModel::new();
    let e = m.fetch_projects(false, false, Ok(vec![project("p1", "One")]));
    assert!(!e.projects_changed);
    assert_eq!(m.error_message, text("Project store not initialized"));
    assert_eq!(m.row_count(), 0);

    let e = m.fetch_projects(true, false, Err(StoreError::Locked("busy".to_string())));
    assert!(!e.projects_changed);
    assert_eq!(m.error_message, text("Failed to access store: busy"));
    m.fetch_projects(true, false, Err(StoreError::Failed("corrupt".to_string())));
    assert_eq!(m.error_message, text("Failed to load projects: corrupt"));
}

#[test]
fn creating_and_removing_projects() {
    let mut m = listed(vec![]);
    assert!(m.create_project("  ", "", true, true).is_none());
    assert_eq!(m.error_message, text("Project name cannot be empty"));
    let p = m.create_project(" Garden ", "  ", true, true).unwrap();
    assert_eq!(p.name, "Garden");
    assert_eq!(p.description, None);
    assert_eq!(p.id.len(), 36);
    let with_desc = m.create_project("Shed", " tools ", true, true).unwrap();
    assert_eq!(with_desc.description.as_deref(), Some("tools"));

    let e = m.project_created(p.clone(), Err(StoreError::Failed("full".to_string())));
    assert!(!e.projects_changed);
    assert_eq!(m.error_message, text("Failed to create project: full"));
    let e = m.project_created(p, Ok(()));
    assert!(e.projects_changed);
    assert_eq!(m.row_count(), 1);
    assert_eq!(m.get_task_counts(0), TaskCounts::zero().to_json());

    let e = m.remove_project(3, Ok(()));
    assert!(!e.projects_changed);
    let e = m.remove_project(0, Err(StoreError::Failed("in use".to_string())));
    assert!(!e.projects_changed);
    assert_eq!(m.error_message, text("Failed to delete project: in use"));
    let e = m.remove_project(0, Ok(()));
    assert!(e.projects_changed);
    assert_eq!(m.row_count(), 0);
}

#[test]
fn linking_a_repository() {
    let mut m = listed(vec![project("p1", "One")]);
    assert!(m.add_repo_to_project(0, "noslash", true, true, true).is_none());
    assert_eq!(m.error_message, text("Invalid repo format. Use 'owner/repo'"));
    assert!(m.add_repo_to_project(0, "a/b/c", true, true, true).is_none());
    assert_eq!(m.error_message, text("Invalid repo format. Use 'owner/repo'"));
    assert!(m.add_repo_to_project(4, "me/a", true, true, true).is_none());
    assert_eq!(m.error_message, text("Invalid project index"));
    assert!(m.add_repo_to_project(0, "me/a", true, true, false).is_none());
    assert_eq!(m.error_message, text("Service channel not ready"));

    let r = m.add_repo_to_project(0, "me/a", true, true, true);
    assert_eq!(r, Some(("me".to_string(), "a".to_string())));
    assert!(m.loading);
    assert_eq!(
        m.op_state,
        ProjectOpState::AddingRepoToProject { project_id: "p1".to_string(), repo_id: "me/a".to_string() }
    );
    // One operation at a time.
    assert!(m.add_repo_to_project_by_id("p1", "me/b", true, true, true).is_none());

    let ids = m.poll_channel(ProjectServiceMessage::FetchRepoDone(Ok(RepoInfo {
        full_name: "me/a".to_string(),
        description: None,
    })));
    assert_eq!(ids, Some(("p1".to_string(), "me/a".to_string())));
    assert_eq!(m.op_state, ProjectOpState::Idle);
    let e = m.handle_repo_added(Ok(()));
    assert!(e.reload_counts);
    assert!(!m.loading);
}

#[test]
fn failed_repository_check() {
    let mut m = listed(vec![project("p1", "One")]);
    assert!(m.add_repo_to_project_by_id("p1", "me/gone", true, true, true).is_some());
    let ids = m.poll_channel(ProjectServiceMessage::FetchRepoDone(Err(ProjectError::Network("404".to_string()))));
    assert_eq!(ids, None);
    assert_eq!(m.error_message, text("Failed to fetch repo: Project error: 404"));
    assert_eq!(m.op_state, ProjectOpState::Idle);
    assert!(!m.loading);
    // Outside an operation a completion is dropped.
    let ids = m.poll_channel(ProjectServiceMessage::FetchRepoDone(Ok(RepoInfo {
        full_name: "me/a".to_string(),
        description: None,
    })));
    assert_eq!(ids, None);
}

#[test]
fn linking_needs_github() {
    let mut m = ProjectModel::new();
    m.fetch_projects(true, false, Ok(vec![project("p1", "One")]));
    assert!(m.add_repo_to_project(0, "me/a", true, false, true).is_none());
    assert_eq!(m.error_message, text("GitHub not authenticated"));
    let e = m.remove_repo_from_project(0, Err(StoreError::Locked("x".to_string())));
    assert!(!e.reload_counts);
    assert_eq!(m.error_message, text("Failed to access store: x"));
    let e = m.remove_repo_from_project(0, Ok(()));
    assert!(e.reload_counts);
    let e = m.handle_repo_added(Err(StoreError::Failed("dup".to_string())));
    assert!(!e.reload_counts);
    assert_eq!(m.error_message, text("Failed to add repo: dup"));
}

#[test]
fn check_auth_fetches_the_github_client_again() {
    let mut m = listed(vec![project("p1", "One")]);
    assert!(m.has_store);
    m.check_auth(true, true);
    assert!(m.authenticated);
    assert!(m.has_github);
    let e = m.check_auth(true, false);
    assert!(e.auth_changed);
    assert!(!m.authenticated);
    assert!(!m.has_github);
    let e = m.check_auth(true, true);
    assert!(e.auth_changed);
    assert!(m.has_github);
    assert!(m.has_store);
}
