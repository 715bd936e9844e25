use myme::models::repo::{RepoModel, RepoOpState, RepoRequest};
use myme::models::UiMessage;
use myme::services::repo::{GitHubRepo, LocalRepo, RepoEntry, RepoError, RepoServiceMessage, RepoState};

fn github_only(name: &str, clone_url: Option<&str>) -> RepoEntry {
    RepoEntry {
        full_name: name.to_string(),
        local: None,
        github: Some(GitHubRepo {
            full_name: name.to_string(),
            clone_url: clone_url.map(|u| u.to_string()),
            html_url: format!("https://github.com/{name}"),
        }),
        state: RepoState::GitHubOnly,
        busy: false,
    }
}

fn local_only(name: &str, path: &str) -> RepoEntry {
    RepoEntry {
        full_name: name.to_string(),
        local: Some(LocalRepo { path: path.to_string(), current_branch: Some("main".to_string()), is_clean: false }),
        github: None,
        state: RepoState::LocalOnly,
        busy: false,
    }
}

fn refreshed(entries: Vec<RepoEntry>) -> RepoModel {
    let mut m = RepoModel::new();
    let e = m.fetch_repos(Some(("/home/me/src".to_string(), false)));
    assert_eq!(e.request, Some(RepoRequest::Refresh));
    assert!(m.loading);
    let e = m.poll_channel(Some(RepoServiceMessage::RefreshDone(Ok(entries))), true);
    assert!(e.repos_changed);
    assert!(!m.loading);
    m
}

#[test]
fn refresh_lists_entries() {
    let m = refreshed(vec![github_only("me/a", None), local_only("me/b", "/home/me/src/b")]);
    assert_eq!(m.row_count(), 2);
    assert_eq!(m.effective_path, "/home/me/src");
    assert_eq!(m.get_full_name(0), "me/a");
    assert_eq!(m.get_state(0), 1);
    assert_eq!(m.get_state(1), 0);
    assert_eq!(m.get_state(7), 0);
    assert!(m.get_has_github(0));
    assert!(!m.get_has_local(0));
    assert!(m.get_is_clean(0));
    assert!(!m.get_is_clean(1));
    assert_eq!(m.get_branch(1), "main");
    assert_eq!(m.get_local_path(1), "/home/me/src/b");
    assert_eq!(m.get_html_url(0), "https://github.com/me/a");
    assert_eq!(m.get_html_url(1), "");
}

#[test]
fn a_second_refresh_is_refused_while_busy() {
    let mut m = RepoModel::new();
    m.fetch_repos(None);
    let e = m.fetch_repos(None);
    assert!(e.error_occurred);
    assert!(e.request.is_none());
    assert_eq!(m.error_message, UiMessage::Text("Operation in progress".to_string()));
    m.clear_error();
    assert_eq!(m.error_message, UiMessage::Empty);
}

#[test]
fn clone_marks_the_entry_busy_until_done() {
    let mut m = refreshed(vec![github_only("me/a", None), local_only("me/b", "/x/b")]);
    // Only GitHub-only entries can be cloned.
    assert!(m.clone_repo(1, None).request.is_none());
    let e = m.clone_repo(0, Some("/home/me/src".to_string()));
    assert!(e.new_cancel_token);
    assert_eq!(
        e.request,
        Some(RepoRequest::Clone {
            index: 0,
            url: "https://github.com/me/a.git".to_string(),
            target_path: "/home/me/src/me/a".to_string(),
        })
    );
    assert!(m.get_busy(0));
    assert_eq!(m.op_state, RepoOpState::BusyClone(0));
    assert!(m.pull_repo(1).request.is_none());

    let e = m.poll_channel(Some(RepoServiceMessage::CloneDone { index: 0, result: Ok(()) }), true);
    assert!(e.clear_cancel_token);
    assert_eq!(e.request, Some(RepoRequest::Refresh));
    assert!(!m.get_busy(0));
    assert_eq!(m.op_state, RepoOpState::BusyRefresh);
}

#[test]
fn clone_uses_the_listed_url_and_default_base() {
    let mut m = refreshed(vec![github_only("me/a", Some("git@github.com:me/a.git"))]);
    let e = m.clone_repo(0, None);
    assert_eq!(
        e.request,
        Some(RepoRequest::Clone { index: 0, url: "git@github.com:me/a.git".to_string(), target_path: "./me/a".to_string() })
    );
    assert_eq!(m.get_clone_url(0), "git@github.com:me/a.git");
}

#[test]
fn clone_without_github_listing_is_an_error() {
    let mut entry = github_only("me/a", None);
    entry.github = None;
    let mut m = refreshed(vec![entry]);
    let e = m.clone_repo(0, None);
    assert!(e.error_occurred);
    assert_eq!(m.error_message, UiMessage::Text("No clone URL for this repo".to_string()));
}

#[test]
fn pull_failure_and_cancellation() {
    let mut m = refreshed(vec![local_only("me/b", "/x/b")]);
    let e = m.pull_repo(0);
    assert_eq!(e.request, Some(RepoRequest::Pull { index: 0, path: "/x/b".to_string() }));
    let e = m.poll_channel(Some(RepoServiceMessage::PullDone {
        index: 0,
        result: Err(RepoError::Git("conflict".to_string())),
    }), true);
    assert!(e.error_occurred);
    assert!(e.clear_cancel_token);
    assert!(e.request.is_none());
    assert!(!m.get_busy(0));
    assert!(matches!(m.error_message, UiMessage::App(_)));

    m.pull_repo(0);
    let e = m.cancel_operation();
    assert!(e.cancel_token);
    assert!(!m.get_busy(0));
    assert_eq!(m.op_state, RepoOpState::Idle);

    m.pull_repo(0);
    let e = m.poll_channel(Some(RepoServiceMessage::PullDone { index: 0, result: Err(RepoError::Cancelled) }), true);
    assert!(!e.error_occurred);
    assert!(e.request.is_none());
    assert_eq!(m.op_state, RepoOpState::Idle);
}

#[test]
fn auth_check_records_settings() {
    let mut m = RepoModel::new();
    let e = m.check_auth(true, Some(("/bad".to_string(), true)));
    assert!(e.auth_changed);
    assert!(m.authenticated);
    assert!(m.config_path_invalid);
    assert_eq!(m.effective_path, "/bad");
    m.check_auth(false, None);
    assert!(!m.authenticated);
    assert_eq!(m.effective_path, "/bad");
}

#[test]
fn finished_pull_without_service_does_not_refresh() {
    let mut m = RepoModel::new();
    let e = m.poll_channel(Some(RepoServiceMessage::PullDone { index: 0, result: Ok(()) }), false);
    assert!(e.request.is_none());
    assert!(e.clear_cancel_token);
    assert!(e.repos_changed);
    assert!(!m.loading);
    assert_eq!(m.op_state, RepoOpState::Idle);
}
