use myme::models::workflow::WorkflowModel;
use myme::models::UiMessage;
use myme::services::workflow::{
    next_workflow_step, run_workflow_fetch, sort_repo_ids, sort_workflows, split_repo_id, GitHubWorkflow, RepoWorkflows,
    WorkflowError, WorkflowFetchStep, WorkflowServiceMessage,
};

fn wf(id: u64, name: &str, path: &str) -> GitHubWorkflow {
    GitHubWorkflow {
        id,
        name: name.to_string(),
        path: path.to_string(),
        state: "active".to_string(),
        html_url: Some(format!("https://github.com/me/a/actions/workflows/{id}")),
    }
}

#[test]
fn workflows_sort_by_name_then_path() {
    let sorted = sort_workflows(vec![
        wf(1, "deploy", ".github/workflows/z.yml"),
        wf(2, "build", ".github/workflows/b.yml"),
        wf(3, "deploy", ".github/workflows/a.yml"),
        wf(4, "Build", ".github/workflows/c.yml"),
    ]);
    let ids: Vec<u64> = sorted.iter().map(|w| w.id).collect();
    assert_eq!(ids, vec![4, 2, 3, 1]);
    assert!(sort_workflows(vec![]).is_empty());
}

#[test]
fn repo_ids_sort() {
    let sorted = sort_repo_ids(vec!["me/b".to_string(), "alice/z".to_string(), "me/a".to_string(), "me/a".to_string()]);
    assert_eq!(sorted, vec!["alice/z", "me/a", "me/a", "me/b"]);
}

#[test]
fn repo_ids_split_at_the_first_slash() {
    assert_eq!(split_repo_id("me/a"), Some(("me".to_string(), "a".to_string())));
    assert_eq!(split_repo_id("me/a/b"), Some(("me".to_string(), "a/b".to_string())));
    assert_eq!(split_repo_id("/a"), Some((String::new(), "a".to_string())));
    assert_eq!(split_repo_id("plain"), None);
}

#[test]
fn fetching_workflows() {
    let mut m = WorkflowModel::new();
    assert_eq!(m.fetch_workflows(false, true, Ok(vec![]), true), None);
    assert_eq!(m.error_message, UiMessage::Text("Project store not initialized".to_string()));

    assert_eq!(m.fetch_workflows(true, true, Err("locked".to_string()), true), None);
    assert_eq!(m.error_message, UiMessage::Text("Failed to list linked repos: locked".to_string()));
    assert!(m.authenticated);

    assert_eq!(m.fetch_workflows(true, false, Ok(vec!["me/a".to_string()]), true), None);
    assert_eq!(m.error_message, UiMessage::Text("GitHub not authenticated".to_string()));
    assert_eq!(m.fetch_workflows(true, true, Ok(vec!["me/a".to_string()]), false), None);
    assert_eq!(m.error_message, UiMessage::Text("Workflow service channel not ready".to_string()));

    let ids = m.fetch_workflows(true, true, Ok(vec!["me/a".to_string()]), true);
    assert_eq!(ids, Some(vec!["me/a".to_string()]));
    assert!(m.loading);
    assert_eq!(m.error_message, UiMessage::Empty);

    let changed = m.poll_channel(WorkflowServiceMessage::FetchWorkflowsDone(Ok(vec![RepoWorkflows {
        repo_id: "me/a".to_string(),
        workflows: vec![wf(9, "test", "t.yml"), wf(8, "lint", "l.yml")],
    }])));
    assert!(changed);
    assert!(!m.loading);
    assert_eq!(m.row_count(), 1);
    assert_eq!(m.get_repo_id(0), "me/a");
    assert_eq!(m.get_workflow_count(0), 2);
    assert_eq!(m.get_workflow_count(3), 0);
    assert_eq!(m.get_workflow_name(0, 0), "lint");
    assert_eq!(m.get_workflow_path(0, 1), "t.yml");
    assert_eq!(m.get_workflow_state(0, 1), "active");
    assert_eq!(m.get_workflow_html_url(0, 0), "https://github.com/me/a/actions/workflows/8");
    assert_eq!(m.get_workflow_name(0, 5), "");
}

#[test]
fn failed_fetch_is_reported() {
    let mut m = WorkflowModel::new();
    m.fetch_workflows(true, true, Ok(vec![]), true);
    let changed = m.poll_channel(WorkflowServiceMessage::FetchWorkflowsDone(Err(WorkflowError::Network(
        "timeout".to_string(),
    ))));
    assert!(!changed);
    assert!(!m.loading);
    assert_eq!(m.error_message, UiMessage::Text("Workflow error: timeout".to_string()));
}

#[test]
fn auth_check_updates_the_flag() {
    let mut m = WorkflowModel::new();
    m.check_auth(true, true);
    assert!(m.authenticated);
    assert!(m.has_store);
    m.check_auth(false, false);
    assert!(!m.authenticated);
    assert!(m.has_store);
}

#[test]
fn workflow_fetch_steps_through_the_sorted_ids() {
    let ids = sort_repo_ids(vec!["c/y".to_string(), "a".to_string(), "b/x".to_string()]);
    assert_eq!(ids, vec!["a".to_string(), "b/x".to_string(), "c/y".to_string()]);

    // The id without a slash gets an empty entry; "b/x" is asked for.
    let results = match next_workflow_step(&ids, 0, Vec::new(), None) {
        WorkflowFetchStep::List { index, owner, repo, results } => {
            assert_eq!((index, owner.as_str(), repo.as_str()), (1, "b", "x"));
            assert_eq!(results, vec![RepoWorkflows { repo_id: "a".to_string(), workflows: vec![] }]);
            results
        },
        other => panic!("{other:?}"),
    };
    let results = match next_workflow_step(&ids, 1, results, Some(Ok(vec![wf(7, "CI", "ci.yml")]))) {
        WorkflowFetchStep::List { index, owner, repo, results } => {
            assert_eq!((index, owner.as_str(), repo.as_str()), (2, "c", "y"));
            assert_eq!(results.len(), 2);
            assert_eq!(results[1].repo_id, "b/x");
            assert_eq!(results[1].workflows, vec![wf(7, "CI", "ci.yml")]);
            results
        },
        other => panic!("{other:?}"),
    };
    match next_workflow_step(&ids, 2, results.clone(), Some(Ok(vec![]))) {
        WorkflowFetchStep::Done(WorkflowServiceMessage::FetchWorkflowsDone(Ok(all))) => {
            assert_eq!(all.len(), 3);
            assert_eq!(all[2], RepoWorkflows { repo_id: "c/y".to_string(), workflows: vec![] });
        },
        other => panic!("{other:?}"),
    }
    // The first failure ends the fetch.
    match next_workflow_step(&ids, 2, results, Some(Err("rate limited".to_string()))) {
        WorkflowFetchStep::Done(WorkflowServiceMessage::FetchWorkflowsDone(Err(e))) => {
            assert_eq!(e, WorkflowError::Network("rate limited".to_string()));
        },
        other => panic!("{other:?}"),
    }
    // No ids: the fetch ends at once with no entries.
    match next_workflow_step(&Vec::new(), 0, Vec::new(), None) {
        WorkflowFetchStep::Done(WorkflowServiceMessage::FetchWorkflowsDone(Ok(all))) => assert!(all.is_empty()),
        other => panic!("{other:?}"),
    }
}

#[test]
fn whole_workflow_fetch_gives_every_entry_or_the_first_failure() {
    let ids = sort_repo_ids(vec!["c/y".to_string(), "a".to_string(), "b/x".to_string()]);
    // The answer for "a" is never asked for.
    let answers = vec![Err("not asked".to_string()), Ok(vec![wf(7, "CI", "ci.yml")]), Ok(vec![])];
    match run_workflow_fetch(&ids, answers) {
        WorkflowServiceMessage::FetchWorkflowsDone(Ok(all)) => {
            assert_eq!(all, vec![
                RepoWorkflows { repo_id: "a".to_string(), workflows: vec![] },
                RepoWorkflows { repo_id: "b/x".to_string(), workflows: vec![wf(7, "CI", "ci.yml")] },
                RepoWorkflows { repo_id: "c/y".to_string(), workflows: vec![] },
            ]);
        },
        other => panic!("{other:?}"),
    }
    let answers = vec![Ok(vec![]), Err("rate limited".to_string()), Err("later".to_string())];
    match run_workflow_fetch(&ids, answers) {
        WorkflowServiceMessage::FetchWorkflowsDone(Err(e)) => assert_eq!(e, WorkflowError::Network("rate limited".to_string())),
        other => panic!("{other:?}"),
    }
}
