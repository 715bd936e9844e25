use myme::services::app_error::AppError;
use myme::services::app_services::AppServices;
use myme::services::auth::{AuthError, AuthServiceMessage};
use myme::services::calendar::CalendarError;
use myme::services::kanban::{KanbanError, KanbanServiceMessage};
use myme::services::note::{NoteError, NoteServiceMessage};
use myme::services::organization::{OrganizationError, OrganizationServiceMessage};
use myme::services::project::{ProjectError, ProjectServiceMessage};
use myme::services::repo::{RepoError, RepoServiceMessage};
use myme::services::weather::{WeatherError, WeatherServiceMessage};
use myme::services::workflow::WorkflowError;

#[test]
fn auth_error_display() {
    assert!(AuthError::OAuth("timeout".into()).message().contains("Authentication"));
    assert!(AuthError::NotConfigured.message().contains("not configured"));
    assert!(AuthError::NotInitialized.message().contains("not initialized"));
}

#[test]
fn auth_service_message_variants() {
    let _auth_err: AuthServiceMessage = AuthServiceMessage::AuthenticateDone(Err(AuthError::NotInitialized));
}

#[test]
fn kanban_error_display() {
    assert!(KanbanError::Network("timeout".into()).message().contains("Kanban"));
    assert!(KanbanError::NotInitialized.message().contains("not initialized"));
}

#[test]
fn kanban_service_message_variants() {
    let _sync_err: KanbanServiceMessage = KanbanServiceMessage::SyncDone {
        repo_id: "owner/repo".into(),
        result: Err(KanbanError::NotInitialized),
    };
}

#[test]
fn note_error_display() {
    assert!(NoteError::Network("timeout".into()).message().contains("Network"));
    assert!(NoteError::NotInitialized.message().contains("not initialized"));
    assert!(NoteError::InvalidIndex.message().contains("Invalid"));
}

#[test]
fn note_service_message_variants() {
    let _fetch_ok: NoteServiceMessage = NoteServiceMessage::FetchDone(Ok(vec![]));
    let _fetch_err: NoteServiceMessage = NoteServiceMessage::FetchDone(Err(NoteError::NotInitialized));
    let _create: NoteServiceMessage = NoteServiceMessage::CreateDone(Err(NoteError::Network("x".into())));
    let _update: NoteServiceMessage = NoteServiceMessage::UpdateDone { index: 0, result: Err(NoteError::InvalidIndex) };
    let _delete: NoteServiceMessage = NoteServiceMessage::DeleteDone { index: 1, result: Ok(()) };
}

#[test]
fn organization_error_display() {
    assert!(OrganizationError::Database("timeout".into()).message().contains("Organization"));
    assert!(OrganizationError::Network("timeout".into()).message().contains("Network"));
    assert!(OrganizationError::NotInitialized.message().contains("not initialized"));
}

#[test]
fn organization_service_message_variants() {
    let _msg: OrganizationServiceMessage =
        OrganizationServiceMessage::OrganizationsLoaded(Err(OrganizationError::NotInitialized));
}

#[test]
fn project_error_display() {
    assert!(ProjectError::Network("timeout".into()).message().contains("Project"));
    assert!(ProjectError::NotInitialized.message().contains("not initialized"));
}

#[test]
fn project_service_message_variants() {
    let _fetch_err: ProjectServiceMessage = ProjectServiceMessage::FetchRepoDone(Err(ProjectError::NotInitialized));
}

#[test]
fn repo_error_display() {
    assert!(RepoError::Git("x".into()).message().contains("Git"));
    assert!(RepoError::GitHub("y".into()).message().contains("GitHub"));
    assert!(RepoError::Io("i".into()).message().contains("IO"));
    assert!(RepoError::Config("z".into()).message().contains("Config"));
}

#[test]
fn repo_service_message_variants() {
    let _refresh_ok: RepoServiceMessage = RepoServiceMessage::RefreshDone(Ok(vec![]));
    let _refresh_err: RepoServiceMessage = RepoServiceMessage::RefreshDone(Err(RepoError::Config("x".into())));
    let _clone: RepoServiceMessage = RepoServiceMessage::CloneDone { index: 0, result: Ok(()) };
    let _pull: RepoServiceMessage = RepoServiceMessage::PullDone { index: 1, result: Err(RepoError::Git("e".into())) };
}

#[test]
fn weather_error_display() {
    assert!(WeatherError::Network("timeout".into()).message().contains("Weather"));
    assert!(WeatherError::Location("failed".into()).message().contains("Location"));
    assert!(WeatherError::NotInitialized.message().contains("not initialized"));
}

#[test]
fn weather_service_message_variants() {
    let _fetch_err: WeatherServiceMessage<()> = WeatherServiceMessage::FetchDone(Err(WeatherError::NotInitialized));
}

#[test]
fn workflow_error_display() {
    assert!(WorkflowError::Network("timeout".into()).message().contains("Workflow"));
    assert!(WorkflowError::NotInitialized.message().contains("not initialized"));
}

#[test]
fn error_texts_are_exact() {
    assert_eq!(AuthError::OAuth("t".into()).message(), "Authentication failed: t");
    assert_eq!(AuthError::NotConfigured.message(), "GitHub OAuth not configured in config.toml");
    assert_eq!(KanbanError::Network("t".into()).message(), "Kanban error: t");
    assert_eq!(NoteError::InvalidIndex.message(), "Invalid note index");
    assert_eq!(OrganizationError::Database("t".into()).message(), "Organization error: t");
    assert_eq!(ProjectError::Network("t".into()).message(), "Project error: t");
    assert_eq!(RepoError::Io("t".into()).message(), "IO: t");
    assert_eq!(WeatherError::Location("t".into()).message(), "Location error: t");
    assert_eq!(WorkflowError::NotInitialized.message(), "Workflow service not initialized");
    assert_eq!(CalendarError::Auth("t".into()).message(), "Calendar auth error: t");
}

#[test]
fn errors_are_reported_as_application_errors() {
    assert_eq!(WeatherError::NotInitialized.to_app_error(), AppError::WeatherServiceUnavailable);
    assert_eq!(WeatherError::Network("x".into()).to_app_error(), AppError::WeatherApi("x".into()));
    assert_eq!(RepoError::GitHub("y".into()).to_app_error(), AppError::GitHub("y".into()));
    assert_eq!(AuthError::OAuth("z".into()).to_app_error(), AppError::AuthOAuthFailed("z".into()));
    assert_eq!(
        WorkflowError::NotInitialized.to_app_error(),
        AppError::Service("Workflow service not initialized".into())
    );
    assert_eq!(CalendarError::Network("n".into()).to_app_error(), AppError::NetworkConnectionFailed("n".into()));
}

#[test]
fn test_github_client_lifecycle() {
    let mut svc: AppServices<(), u32, (), (), (), u64> = AppServices::new();

    // Initially not authenticated
    assert!(!svc.is_github_authenticated());

    // A client made after sign-in authenticates GitHub
    assert!(svc.reinitialize_github_client(Some(7)));
    assert!(svc.is_github_authenticated());

    // Clear should work
    svc.clear_github_client();
    assert!(!svc.is_github_authenticated());

    // A sign-in that yields no client leaves GitHub unauthenticated
    assert!(!svc.reinitialize_github_client(None));
    assert!(!svc.is_github_authenticated());
}

#[test]
fn repo_cancel_token_lifecycle() {
    let mut svc: AppServices<(), (), (), (), (), u64> = AppServices::new();
    assert_eq!(svc.cancel_repo_operation(), None);
    svc.new_repo_cancel_token(1);
    svc.new_repo_cancel_token(2);
    assert_eq!(svc.cancel_repo_operation(), Some(2));
    assert_eq!(svc.cancel_repo_operation(), None);
    svc.new_repo_cancel_token(3);
    svc.clear_repo_cancel_token();
    assert_eq!(svc.cancel_repo_operation(), None);
    svc.new_repo_cancel_token(4);
    assert_eq!(svc.shutdown(), Some(4));
    assert!(svc.repo_cancel_token.is_none());
}
