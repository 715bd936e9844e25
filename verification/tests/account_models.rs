use myme::models::auth::{AuthModel, AuthOpState};
use myme::models::calendar::{clock_text, CalendarModel};
use myme::models::samples::TestObjectRust;
use myme::models::todo::{Todo, TodoModel, TodoRequest, TodoStatus};
use myme::models::UiMessage;
use myme::services::auth::{AuthError, AuthServiceMessage, TokenSet};
use myme::services::calendar::{CalendarError, CalendarEvent, CalendarInfo, CalendarServiceMessage};
use myme::services::google::{get_google_cache_path, google_cache_path_in};

fn text(s: &str) -> UiMessage {
    UiMessage::Text(s.to_string())
}

fn event(id: &str, summary: &str, start: i64) -> CalendarEvent {
    CalendarEvent {
        id: id.to_string(),
        summary: summary.to_string(),
        description: None,
        location: None,
        start_millis: start,
        end_millis: start + 3_600_000,
        all_day: false,
        status: "Confirmed".to_string(),
    }
}

const DAY: i64 = 86_400_000;

#[test]
fn clock_texts() {
    assert_eq!(clock_text(0), "00:00");
    assert_eq!(clock_text(9 * 3_600_000 + 5 * 60_000 + 59_999), "09:05");
    assert_eq!(clock_text(19_000 * DAY + 23 * 3_600_000 + 59 * 60_000), "23:59");
    assert_eq!(clock_text(-60_000), "23:59");
}

#[test]
fn google_cache_paths() {
    assert_eq!(google_cache_path_in(Some("/home/me/.config".to_string()), "calendar_cache.db"), "/home/me/.config/myme/calendar_cache.db");
    assert_eq!(google_cache_path_in(None, "gmail_cache.db"), "./myme/gmail_cache.db");
    assert!(get_google_cache_path("calendar_cache.db").ends_with("myme/calendar_cache.db"));
}

#[test]
fn calendar_fetch_and_summary() {
    let mut m = CalendarModel::new();
    assert_eq!(m.fetch_events(None, true, None), None);
    assert_eq!(m.error_message, text("Not authenticated"));
    assert!(!m.authenticated);
    assert_eq!(m.fetch_events(Some("tok".to_string()), false, None), None);
    assert_eq!(m.error_message, text("Service channel not ready"));
    let r = m.fetch_events(Some("tok".to_string()), true, Some("/cfg".to_string()));
    assert_eq!(r, Some(("tok".to_string(), "/cfg/myme/calendar_cache.db".to_string())));
    assert!(m.loading);

    let now = 20_000 * DAY + 10 * 3_600_000;
    let events = vec![
        event("a", "Standup", 20_000 * DAY + 9 * 3_600_000),
        event("b", "", 20_000 * DAY + 15 * 3_600_000 + 30 * 60_000),
        event("c", "Lunch", 20_000 * DAY + 12 * 3_600_000),
        event("d", "Tomorrow", 20_001 * DAY + 8 * 3_600_000),
        event("e", "Also lunch", 20_000 * DAY + 12 * 3_600_000),
    ];
    assert!(m.poll_channel(CalendarServiceMessage::FetchEventsDone(Ok(events)), now));
    assert!(!m.loading);
    assert_eq!(m.event_count, 5);
    assert_eq!(m.today_event_count, 4);
    assert_eq!(m.next_event_summary, "Lunch");
    assert_eq!(m.next_event_time, "12:00");
}

#[test]
fn calendar_untitled_next_event_and_errors() {
    let mut m = CalendarModel::new();
    let now = 20_000 * DAY;
    assert!(m.poll_channel(
        CalendarServiceMessage::FetchEventsDone(Ok(vec![event("x", "", now + 90 * 60_000), event("y", "Old", now - 1)])),
        now
    ));
    assert_eq!(m.next_event_summary, "(No title)");
    assert_eq!(m.next_event_time, "01:30");

    assert!(m.poll_channel(CalendarServiceMessage::FetchEventsDone(Ok(vec![event("y", "Old", now - 1)])), now));
    assert_eq!(m.next_event_summary, "");
    assert_eq!(m.next_event_time, "");

    let cals = vec![CalendarInfo { id: "primary".to_string(), summary: "Me".to_string(), is_primary: true, background_color: None }];
    assert!(m.poll_channel(CalendarServiceMessage::FetchCalendarsDone(Ok(cals.clone())), now));
    assert_eq!(m.calendars, cals);

    assert!(!m.poll_channel(CalendarServiceMessage::FetchEventsDone(Err(CalendarError::Auth("expired".to_string()))), now));
    assert_eq!(m.error_message, text("Calendar auth error: expired"));
    assert_eq!(m.event_count, 1);
}

#[test]
fn calendar_auth_and_today() {
    let mut m = CalendarModel::new();
    m.check_auth(true, Some(3));
    assert!(m.authenticated);
    assert_eq!(m.today_event_count, 3);
    m.check_auth(false, Some(7));
    assert!(!m.authenticated);
    assert_eq!(m.today_event_count, 3);
    assert_eq!(m.fetch_today_events(Some("t".to_string()), true), Some("t".to_string()));
    assert_eq!(m.fetch_today_events(None, true), None);
    assert!(!m.authenticated);
}

fn token() -> TokenSet {
    TokenSet { access_token: "gho_x".to_string(), refresh_token: None, expires_at: 0, scopes: vec!["repo".to_string()] }
}

#[test]
fn authentication_flow() {
    let mut m = AuthModel::new();
    let e = m.authenticate(false, true);
    assert!(!e.request_authenticate);
    assert_eq!(
        m.error_message,
        text("GitHub OAuth not configured. Please add client_id and client_secret to config.toml")
    );
    assert_eq!(m.provider_name(), "");

    let e = m.authenticate(true, false);
    assert!(!e.request_authenticate);
    assert_eq!(m.error_message, text("Service channel not ready"));
    assert_eq!(m.provider_name(), "GitHub");

    let e = m.authenticate(true, true);
    assert!(e.request_authenticate);
    assert!(m.loading);
    assert_eq!(m.op_state, AuthOpState::Authenticating);
    // Already authenticating: nothing more is started.
    assert!(!m.authenticate(true, true).request_authenticate);

    let e = m.poll_channel(AuthServiceMessage::AuthenticateDone(Ok(token())));
    assert!(e.reinitialize_github_client && e.auth_changed && e.auth_completed);
    assert!(m.authenticated);
    assert!(!m.loading);

    let e = m.sign_out(Err("keyring locked".to_string()));
    assert!(!e.auth_changed);
    assert_eq!(m.error_message, text("Sign out failed: keyring locked"));
    assert!(m.authenticated);
    let e = m.sign_out(Ok(()));
    assert!(e.auth_changed);
    assert!(!m.authenticated);
}

#[test]
fn failed_authentication_and_checks() {
    let mut m = AuthModel::new();
    m.authenticate(true, true);
    let e = m.poll_channel(AuthServiceMessage::AuthenticateDone(Err(AuthError::OAuth("denied".to_string()))));
    assert!(!e.auth_changed);
    assert!(!m.authenticated);
    assert!(matches!(m.error_message, UiMessage::Text(ref t) if t.starts_with("Authentication failed: ")));
    assert_eq!(m.op_state, AuthOpState::Idle);

    let e = m.check_auth(true, true);
    assert!(e.auth_changed);
    assert!(m.authenticated);
    let e = m.check_auth(true, true);
    assert!(!e.auth_changed);

    let mut bare = AuthModel::new();
    let e = bare.sign_out(Ok(()));
    assert!(!e.auth_changed);
    let e = bare.check_auth(false, true);
    assert!(!e.auth_changed);
    assert!(!bare.authenticated);
}

#[test]
fn todo_requests() {
    let mut m = TodoModel::new();
    assert_eq!(m.fetch_todos(), None);
    assert_eq!(m.error_message, text("Not initialized"));
    m.initialize();
    assert_eq!(m.fetch_todos(), Some(TodoRequest::List));
    assert_eq!(
        m.add_todo("Buy milk", ""),
        Some(TodoRequest::Create { title: "Buy milk".to_string(), description: None })
    );
    assert_eq!(
        m.add_todo("Call", "about the roof"),
        Some(TodoRequest::Create { title: "Call".to_string(), description: Some("about the roof".to_string()) })
    );
    m.todos = vec![
        Todo { id: Some(11), title: "A".to_string(), description: Some("d".to_string()), status: TodoStatus::InProgress },
        Todo { id: None, title: "B".to_string(), description: None, status: TodoStatus::Pending },
    ];
    assert_eq!(m.complete_todo(0), Some(TodoRequest::SetStatus { id: 11, status: TodoStatus::Completed }));
    assert_eq!(m.complete_todo(1), None);
    assert_eq!(m.delete_todo(0), Some(TodoRequest::Delete { id: 11 }));
    assert_eq!(m.delete_todo(2), None);
    assert_eq!(m.row_count(), 2);
    assert_eq!(m.get_title(1), "B");
    assert_eq!(m.get_description(0), "d");
    assert_eq!(m.get_status(0), 1);
    assert_eq!(m.get_status(5), 0);
    assert_eq!(m.get_id(0), 11);
    assert_eq!(m.get_id(1), 0);
}

#[test]
fn test_object_method() {
    assert_eq!(TestObjectRust.test_method(), "Test method called");
}

#[test]
fn events_and_calendars_as_json() {
    let mut m = CalendarModel::new();
    let mut e = event("ev1", "Stand \"up\"", 1_700_000_000_000);
    e.location = Some("Room 1".to_string());
    m.poll_channel(CalendarServiceMessage::FetchEventsDone(Ok(vec![e])), 0);
    assert_eq!(
        m.get_event(0),
        r#"{"allDay":false,"description":null,"end":"2023-11-14T23:13:20+00:00","id":"ev1","location":"Room 1","start":"2023-11-14T22:13:20+00:00","status":"Confirmed","summary":"Stand \"up\""}"#
    );
    assert_eq!(m.get_event(1), "{}");
    assert_eq!(m.get_event(-1), "{}");
    assert_eq!(m.get_calendars(), "[]");
    let cals = vec![
        CalendarInfo { id: "primary".to_string(), summary: "Me".to_string(), is_primary: true, background_color: Some("#9fe1e7".to_string()) },
        CalendarInfo { id: "work".to_string(), summary: "Work".to_string(), is_primary: false, background_color: None },
    ];
    m.poll_channel(CalendarServiceMessage::FetchCalendarsDone(Ok(cals)), 0);
    assert_eq!(
        m.get_calendars(),
        r##"[{"backgroundColor":"#9fe1e7","id":"primary","isPrimary":true,"summary":"Me"},{"backgroundColor":null,"id":"work","isPrimary":false,"summary":"Work"}]"##
    );
}
