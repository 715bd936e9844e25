use myme::models::note::{NoteModel, NoteOpState, NoteRequest, NoteViewFilter};
use myme::models::UiMessage;
use myme::services::note::{Note, NoteError, NoteFilter, NoteServiceMessage, NoteUpdate};

fn note(id: i64, content: &str) -> Note {
    Note {
        id,
        content: content.to_string(),
        done: false,
        created_at: 1_700_000_000,
        color: None,
        pinned: false,
        archived: false,
        labels: vec![],
        is_checklist: false,
        reminder: None,
    }
}

fn loaded(notes: Vec<Note>) -> NoteModel {
    let mut m = NoteModel::new();
    m.initialize();
    let e = m.fetch_notes();
    assert_eq!(e.request, Some(NoteRequest::Fetch(NoteFilter::All)));
    let e = m.poll_channel(Some(NoteServiceMessage::FetchDone(Ok(notes))));
    assert!(e.notes_changed);
    m
}

#[test]
fn fetch_without_client_reports_it() {
    let mut m = NoteModel::new();
    let e = m.fetch_notes();
    assert!(e.error_occurred);
    assert!(e.request.is_none());
    assert_eq!(m.error_message, UiMessage::Text("Not initialized".to_string()));
}

#[test]
fn fetched_notes_are_listed() {
    let m = loaded(vec![note(1, "milk"), note(2, "eggs")]);
    assert_eq!(m.row_count(), 2);
    assert_eq!(m.get_content(1), "eggs");
    assert_eq!(m.get_content(2), "");
    assert_eq!(m.get_content(-1), "");
    assert!(!m.get_done(0));
    assert!(m.connected);
    assert_eq!(m.op_state, NoteOpState::Idle);
}

#[test]
fn one_operation_at_a_time() {
    let mut m = loaded(vec![note(1, "milk")]);
    let e = m.toggle_done(0);
    assert_eq!(m.op_state, NoteOpState::Updating(0));
    match e.request {
        Some(NoteRequest::Update { index, note_id, update }) => {
            assert_eq!((index, note_id), (0, 1));
            assert_eq!(update.done, Some(true));
        },
        other => panic!("unexpected request {:?}", other),
    }
    // Busy: every further request is refused.
    assert!(m.delete_note(0).request.is_none());
    assert!(m.add_note("bread").request.is_none());
    assert!(m.fetch_notes().request.is_none());
    let mut done = note(1, "milk");
    done.done = true;
    let e = m.poll_channel(Some(NoteServiceMessage::UpdateDone { index: 0, result: Ok(done) }));
    assert!(e.notes_changed);
    assert!(m.get_done(0));
    assert_eq!(m.op_state, NoteOpState::Idle);
}

#[test]
fn archived_note_leaves_main_list() {
    let mut m = loaded(vec![note(1, "a"), note(2, "b")]);
    let e = m.archive_note(1);
    match &e.request {
        Some(NoteRequest::Update { update, .. }) => assert_eq!(update.archived, Some(true)),
        other => panic!("unexpected request {:?}", other),
    }
    let mut archived = note(2, "b");
    archived.archived = true;
    m.poll_channel(Some(NoteServiceMessage::UpdateDone { index: 1, result: Ok(archived) }));
    assert_eq!(m.row_count(), 1);
    assert_eq!(m.get_content(0), "a");
}

#[test]
fn creation_appends_the_note() {
    let mut m = loaded(vec![note(1, "a")]);
    assert!(m.add_note("").request.is_none());
    let e = m.add_note("b");
    assert_eq!(e.request, Some(NoteRequest::Create { content: "b".to_string(), is_checklist: false }));
    assert!(m.loading);
    m.poll_channel(Some(NoteServiceMessage::CreateDone(Ok(note(2, "b")))));
    assert_eq!(m.row_count(), 2);
    assert_eq!(m.get_content(1), "b");
    let e = m.add_note_checklist("list");
    assert_eq!(e.request, Some(NoteRequest::Create { content: "list".to_string(), is_checklist: true }));
}

#[test]
fn deletion_and_errors() {
    let mut m = loaded(vec![note(1, "a"), note(2, "b")]);
    let e = m.delete_note(0);
    assert_eq!(e.request, Some(NoteRequest::Delete { index: 0, note_id: 1 }));
    let e = m.poll_channel(Some(NoteServiceMessage::DeleteDone { index: 0, result: Ok(()) }));
    assert!(e.notes_changed);
    assert_eq!(m.get_content(0), "b");

    m.delete_note(0);
    let e = m.poll_channel(Some(NoteServiceMessage::DeleteDone {
        index: 0,
        result: Err(NoteError::Network("offline".to_string())),
    }));
    assert!(e.error_occurred);
    assert_eq!(m.row_count(), 1);
    assert!(matches!(m.error_message, UiMessage::App(_)));
    assert_eq!(m.op_state, NoteOpState::Idle);
    assert!(m.delete_note(5).request.is_none());
}

#[test]
fn failed_fetch_disconnects_and_keeps_notes() {
    let mut m = loaded(vec![note(1, "a")]);
    m.fetch_notes();
    let e = m.poll_channel(Some(NoteServiceMessage::FetchDone(Err(NoteError::NotInitialized))));
    assert!(e.error_occurred);
    assert!(!m.connected);
    assert_eq!(m.row_count(), 1);
    assert!(!m.loading);
    assert_eq!(m.poll_channel(None).request, None);
}

#[test]
fn filters_select_the_listing() {
    let mut m = loaded(vec![]);
    let e = m.set_filter("label:work");
    assert_eq!(m.filter, NoteViewFilter::Label("work".to_string()));
    assert_eq!(e.request, Some(NoteRequest::Fetch(NoteFilter::Label("work".to_string()))));
    m.poll_channel(Some(NoteServiceMessage::FetchDone(Ok(vec![]))));
    m.set_filter("archived");
    assert_eq!(m.filter, NoteViewFilter::Archived);
    m.poll_channel(Some(NoteServiceMessage::FetchDone(Ok(vec![]))));
    m.set_filter("pinned");
    assert_eq!(m.filter, NoteViewFilter::All);
}

#[test]
fn label_updates() {
    let mut n = note(1, "a");
    n.labels = vec!["home".to_string(), "work".to_string(), "home".to_string()];
    let mut m = loaded(vec![n]);
    // Present already: nothing to do.
    assert!(m.add_label(0, " work ").request.is_none());
    assert!(m.add_label(0, "  ").request.is_none());
    match m.add_label(0, " urgent ").request {
        Some(NoteRequest::Update { update, .. }) => {
            assert_eq!(
                update.labels,
                Some(vec!["home".to_string(), "work".to_string(), "home".to_string(), "urgent".to_string()])
            );
        },
        other => panic!("unexpected request {:?}", other),
    }
    m.poll_channel(Some(NoteServiceMessage::UpdateDone { index: 0, result: Err(NoteError::InvalidIndex) }));
    match m.remove_label(0, "home").request {
        Some(NoteRequest::Update { update, .. }) => {
            assert_eq!(update.labels, Some(vec!["work".to_string()]));
            assert_eq!(update.content, None);
        },
        other => panic!("unexpected request {:?}", other),
    }
}

#[test]
fn color_and_content_updates() {
    let mut m = loaded(vec![note(1, "a")]);
    match m.set_color(0, "  ").request {
        Some(NoteRequest::Update { update, .. }) => assert_eq!(update.color, Some(None)),
        other => panic!("unexpected request {:?}", other),
    }
    m.poll_channel(Some(NoteServiceMessage::UpdateDone { index: 0, result: Ok(note(1, "a")) }));
    match m.set_color(0, "#ff0000").request {
        Some(NoteRequest::Update { update, .. }) => {
            assert_eq!(update.color, Some(Some("#ff0000".to_string())));
        },
        other => panic!("unexpected request {:?}", other),
    }
    m.poll_channel(Some(NoteServiceMessage::UpdateDone { index: 0, result: Ok(note(1, "a")) }));
    match m.update_content(0, "new text").request {
        Some(NoteRequest::Update { update, .. }) => {
            let mut expected = NoteUpdate::empty();
            expected.content = Some("new text".to_string());
            assert_eq!(update, expected);
        },
        other => panic!("unexpected request {:?}", other),
    }
}

#[test]
fn note_times_and_ids() {
    let mut n = note(42, "a");
    n.created_at = 1_700_000_000;
    n.reminder = Some(1_700_003_600);
    let mut m = loaded(vec![n, note(-7, "b")]);
    assert_eq!(m.get_id(0), "42");
    assert_eq!(m.get_id(1), "-7");
    assert_eq!(m.get_id(2), "");
    assert_eq!(m.get_created_at(0), "2023-11-14 22:13");
    assert_eq!(m.get_reminder(0), "2023-11-14T23:13:20Z");
    assert_eq!(m.get_reminder(1), "");
    assert_eq!(m.get_created_at(9), "");

    match m.set_reminder(0, "2024-05-01T09:30:00+02:00").request {
        Some(NoteRequest::Update { update, .. }) => assert_eq!(update.reminder, Some(Some(1_714_548_600))),
        other => panic!("unexpected request {:?}", other),
    }
    m.poll_channel(Some(NoteServiceMessage::UpdateDone { index: 0, result: Ok(note(42, "a")) }));
    match m.set_reminder(0, "   ").request {
        Some(NoteRequest::Update { update, .. }) => assert_eq!(update.reminder, Some(None)),
        other => panic!("unexpected request {:?}", other),
    }
    m.poll_channel(Some(NoteServiceMessage::UpdateDone { index: 0, result: Ok(note(42, "a")) }));
    match m.set_reminder(0, "next tuesday").request {
        Some(NoteRequest::Update { update, .. }) => assert_eq!(update.reminder, Some(None)),
        other => panic!("unexpected request {:?}", other),
    }
}

#[test]
fn removing_an_added_label_restores_the_labels() {
    let mut n = note(1, "a");
    n.labels = vec!["home".to_string(), "work".to_string()];
    let mut m = loaded(vec![n.clone()]);
    let added = match m.add_label(0, "urgent").request {
        Some(NoteRequest::Update { update, .. }) => update.labels.unwrap(),
        other => panic!("unexpected request {:?}", other),
    };
    let mut with_label = n.clone();
    with_label.labels = added;
    m.poll_channel(Some(NoteServiceMessage::UpdateDone { index: 0, result: Ok(with_label) }));
    match m.remove_label(0, "urgent").request {
        Some(NoteRequest::Update { update, .. }) => assert_eq!(update.labels, Some(n.labels.clone())),
        other => panic!("unexpected request {:?}", other),
    }
}
