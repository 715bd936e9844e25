use myme::dates::Moment;
use myme::models::gmail::{GmailModel, GmailRequest};
use myme::models::google_auth::{
    config_display_path, config_display_path_in, read_oauth_callback, GoogleAuthModel, GoogleAuthOpState,
};
use myme::services::gmail::{GmailMessage, GmailServiceMessage};
use myme::services::google::sync_interval_secs;

fn message(id: &str, unread: bool) -> GmailMessage {
    GmailMessage {
        id: id.to_string(),
        from: "Ada <ada@example.com>".to_string(),
        subject: "Hello".to_string(),
        snippet: "Hi there".to_string(),
        date: Moment { secs: 1_700_000_000, nanos: 0 },
        is_unread: unread,
        is_starred: false,
    }
}

#[test]
fn oauth_callback_is_read() {
    assert_eq!(
        read_oauth_callback("GET /callback?code=abc%2F1&state=xyz HTTP/1.1\r\n", "xyz"),
        Ok("abc/1".to_string())
    );
    assert_eq!(
        read_oauth_callback("GET /callback?state=xyz&code=c1&code=c2 HTTP/1.1", "xyz"),
        Ok("c1".to_string())
    );
    assert_eq!(read_oauth_callback("GET", "xyz"), Err("Invalid request".to_string()));
    assert_eq!(read_oauth_callback("", "xyz"), Err("Invalid request".to_string()));
    assert_eq!(
        read_oauth_callback("GET /callback?state=xyz HTTP/1.1", "xyz"),
        Err("No code in callback".to_string())
    );
    assert_eq!(
        read_oauth_callback("GET /callback?code=abc HTTP/1.1", "xyz"),
        Err("No state in callback".to_string())
    );
    assert_eq!(
        read_oauth_callback("GET /callback?code=abc&state=evil HTTP/1.1", "xyz"),
        Err("State mismatch - possible CSRF attack".to_string())
    );
    let err = read_oauth_callback("GET :bad HTTP/1.1", "xyz").unwrap_err();
    assert!(err.starts_with("URL parse failed: "), "{err}");
}

#[test]
fn config_paths() {
    assert_eq!(config_display_path_in(Some("/home/me/.config".to_string())), "/home/me/.config/myme/config.toml");
    assert_eq!(config_display_path_in(None), "config.toml");
    assert!(config_display_path().ends_with("config.toml"));
    assert_eq!(sync_interval_secs(None), 300);
    assert_eq!(sync_interval_secs(Some(60)), 60);
}

#[test]
fn google_sign_in_flow() {
    let mut m = GoogleAuthModel::new();
    assert_eq!(m.authenticate(None, "/cfg/myme/config.toml"), None);
    assert_eq!(
        m.error_message,
        "Google OAuth not configured. Add a [google] section with client_id and client_secret to /cfg/myme/config.toml"
    );
    let creds = ("id".to_string(), "secret".to_string());
    assert_eq!(m.authenticate(Some(creds.clone()), "x"), Some(creds.clone()));
    assert!(m.loading);
    assert_eq!(m.op_state, GoogleAuthOpState::Authenticating);
    assert_eq!(m.error_message, "");
    // Already signing in.
    assert_eq!(m.authenticate(Some(creds), "x"), None);

    let e = m.poll_channel(None);
    assert!(!e.auth_changed);
    assert!(m.loading);
    let e = m.poll_channel(Some(Ok("ada@example.com".to_string())));
    assert!(e.auth_changed && e.auth_completed);
    assert!(m.authenticated);
    assert_eq!(m.user_email, "ada@example.com");
    assert!(!m.loading);

    assert!(!m.sign_out(Err("keyring unavailable".to_string())));
    assert_eq!(m.error_message, "keyring unavailable");
    assert!(m.authenticated);
    assert!(m.sign_out(Ok(())));
    assert!(!m.authenticated);
    assert_eq!(m.user_email, "");
}

#[test]
fn google_sign_in_failure_and_checks() {
    let mut m = GoogleAuthModel::new();
    m.authenticate(Some(("id".to_string(), "s".to_string())), "x");
    let e = m.poll_channel(Some(Err("Token exchange failed: denied".to_string())));
    assert!(!e.auth_changed);
    assert_eq!(m.error_message, "Token exchange failed: denied");
    assert!(!m.authenticated);
    assert_eq!(m.op_state, GoogleAuthOpState::Idle);

    m.check_auth(true, Some(false));
    assert!(m.authenticated);
    m.check_auth(true, Some(true));
    assert!(!m.authenticated);
    m.check_auth(true, None);
    assert!(!m.authenticated);
    m.check_auth(false, Some(false));
    assert!(!m.authenticated);
}

#[test]
fn mail_fetch_and_counts() {
    let mut m = GmailModel::new();
    assert_eq!(m.fetch_messages(None, true, None), None);
    assert_eq!(m.error_message, "Not authenticated");
    assert_eq!(m.fetch_messages(Some("t".to_string()), false, None), None);
    assert_eq!(m.error_message, "Service channel not ready");
    assert_eq!(
        m.fetch_messages(Some("t".to_string()), true, Some("/cfg".to_string())),
        Some(GmailRequest::Fetch { token: "t".to_string(), cache_path: "/cfg/myme/gmail_cache.db".to_string() })
    );
    assert!(m.loading);

    let e = m.poll_channel(Some(GmailServiceMessage::FetchDone(Ok(vec![
        message("m1", true),
        message("m2", false),
        message("m3", true),
    ]))));
    assert!(e.messages_changed);
    assert!(!m.loading);
    assert_eq!(m.message_count, 3);
    assert_eq!(m.unread_count, 2);
    assert_eq!(
        m.get_message(1),
        r#"{"date":"2023-11-14T22:13:20+00:00","from":"Ada <ada@example.com>","id":"m2","isStarred":false,"isUnread":false,"snippet":"Hi there","subject":"Hello"}"#
    );
    assert_eq!(m.get_message(3), "{}");

    let e = m.poll_channel(Some(GmailServiceMessage::FetchDone(Err("quota exceeded".to_string()))));
    assert!(!e.messages_changed);
    assert_eq!(m.error_message, "quota exceeded");
    assert_eq!(m.message_count, 3);
}

#[test]
fn mail_actions() {
    let mut m = GmailModel::new();
    let t = Some("tok".to_string());
    assert_eq!(
        m.mark_as_read(t.clone(), true, "m1"),
        Some(GmailRequest::MarkAsRead { token: "tok".to_string(), message_id: "m1".to_string() })
    );
    assert_eq!(
        m.archive_message(t.clone(), true, "m1"),
        Some(GmailRequest::Archive { token: "tok".to_string(), message_id: "m1".to_string() })
    );
    assert_eq!(
        m.trash_message(t.clone(), true, "m1"),
        Some(GmailRequest::Trash { token: "tok".to_string(), message_id: "m1".to_string() })
    );
    assert_eq!(m.trash_message(None, true, "m1"), None);
    assert_eq!(m.archive_message(t.clone(), false, "m1"), None);

    let e = m.poll_channel(Some(GmailServiceMessage::ActionDone(Ok("m1".to_string()))));
    assert_eq!(e.message_updated, Some("m1".to_string()));
    assert!(e.refetch);
    let e = m.poll_channel(Some(GmailServiceMessage::ActionDone(Err("not found".to_string()))));
    assert!(!e.refetch);
    assert_eq!(m.error_message, "not found");

    m.check_auth(true, Some(5));
    assert!(m.authenticated);
    assert_eq!(m.unread_count, 5);
    m.check_auth(false, Some(9));
    assert!(!m.authenticated);
    assert_eq!(m.unread_count, 5);
}

#[test]
fn message_text_is_escaped_in_json() {
    let mut m = GmailModel::new();
    m.fetch_messages(Some("t".to_string()), true, Some("/cfg".to_string()));
    let mut odd = message("q\"1", true);
    odd.subject = "a\\b\tc\nd\u{1}é".to_string();
    m.poll_channel(Some(GmailServiceMessage::FetchDone(Ok(vec![odd]))));
    assert_eq!(
        m.get_message(0),
        r#"{"date":"2023-11-14T22:13:20+00:00","from":"Ada <ada@example.com>","id":"q\"1","isStarred":false,"isUnread":true,"snippet":"Hi there","subject":"a\\b\tc\nd\u0001é"}"#
    );
}
