use vstd::prelude::*;

use crate::models::{ui_text, valid_index, UiMessage};
use crate::dates::{format_utc, parse_rfc3339_instant, rfc3339_instant, utc_formatted, utc_in_range, utc_moment, Moment};
use crate::text::{decimal_text, i64_to_string, trim, trim_spec};
use crate::services::note::{
    empty_update, note_reported_as, toggle_done_update, Note, NoteFilter,
    NoteServiceMessage, NoteUpdate,
};

verus! {

/// Operation in flight; only one runs at a time.
#[derive(Debug, Clone, Copy, PartialEq, Eq, Structural)]
pub enum NoteOpState {
    Idle,
    Fetching,
    Creating,
    Updating(usize),
    Deleting(usize),
}

/// Which notes the model lists.
#[derive(Debug, Clone, PartialEq, Eq)]
pub enum NoteViewFilter {
    All,
    Archived,
    Label(String),
}

/// A request the note model hands to the note service.
#[derive(Debug, Clone, PartialEq, Eq)]
pub enum NoteRequest {
    Fetch(NoteFilter),
    Create { content: String, is_checklist: bool },
    Update { index: usize, note_id: i64, update: NoteUpdate },
    Delete { index: usize, note_id: i64 },
}

/// What a note model step produced: a service request to issue, and the
/// signals to raise.
#[derive(Debug, Clone, PartialEq, Eq)]
pub struct NoteEffect {
    pub request: Option<NoteRequest>,
    pub notes_changed: bool,
    pub error_occurred: bool,
}

/// A step that requests nothing and raises no signal.
pub open spec fn no_effect() -> NoteEffect {
    NoteEffect { request: None, notes_changed: false, error_occurred: false }
}

/// The service filter that corresponds to the model's filter.
pub open spec fn service_filter(f: NoteViewFilter) -> NoteFilter {
    match f {
        NoteViewFilter::All => NoteFilter::All,
        NoteViewFilter::Archived => NoteFilter::Archived,
        NoteViewFilter::Label(l) => NoteFilter::Label(l),
    }
}

/// Whether the model's filter is `label:` followed by `name`.
pub open spec fn filter_matches_text(v: NoteViewFilter, f: Seq<char>) -> bool {
    if f.len() >= 6 && f.subrange(0, 6) == "label:"@ {
        v matches NoteViewFilter::Label(l) && l@ == f.subrange(6, f.len() as int)
    } else if f == "archived"@ {
        v == NoteViewFilter::Archived
    } else {
        v == NoteViewFilter::All
    }
}

/// Whether an updated note leaves the current listing: archived notes leave
/// the main list, unarchived notes leave the archive.
pub open spec fn leaves_listing(filter: NoteViewFilter, updated: Note) -> bool {
    (filter == NoteViewFilter::All && updated.archived) || (filter == NoteViewFilter::Archived
        && !updated.archived)
}


/// The outcome of sending an update for the note at `index`: nothing
/// happens while busy, for an invalid index or without a client; otherwise
/// the model waits for the update and requests one for that note.
pub open spec fn update_sent(old: NoteModel, new: NoteModel, index: i32, e: NoteEffect) -> bool {
    if old.op_state != NoteOpState::Idle || !valid_index(index, old.notes@.len()) || !old.has_client {
        new == old && e == no_effect()
    } else {
        &&& new == (NoteModel { op_state: NoteOpState::Updating(index as usize), ..old })
        &&& e.request matches Some(NoteRequest::Update { index: i, note_id, update: _ })
        &&& i == index as usize && note_id == old.notes@[index as int].id
        &&& !e.notes_changed && !e.error_occurred
    }
}

/// The update that a step requested, if it requested one.
pub open spec fn requested_update(e: NoteEffect) -> NoteUpdate {
    match e.request {
        Some(NoteRequest::Update { update, .. }) => update,
        _ => empty_update(),
    }
}

/// Sending exactly `update` for the note at `index`.
pub open spec fn update_step(old: NoteModel, new: NoteModel, index: i32, update: NoteUpdate, e: NoteEffect) -> bool {
    update_sent(old, new, index, e) && (e.request is Some ==> requested_update(e) == update)
}

/// The labels of `labels` other than `label`, in order.
pub open spec fn without_label(labels: Seq<String>, label: Seq<char>) -> Seq<String>
    decreases labels.len(),
{
    if labels.len() == 0 {
        labels
    } else if labels.last()@ == label {
        without_label(labels.drop_last(), label)
    } else {
        without_label(labels.drop_last(), label).push(labels.last())
    }
}

/// Whether some label of `labels` is `label`.
pub open spec fn has_label(labels: Seq<String>, label: Seq<char>) -> bool {
    exists|i: int| 0 <= i < labels.len() && #[trigger] labels[i]@ == label
}

/// The state after a service completion arrives.
pub open spec fn polled(old: NoteModel, new: NoteModel, msg: NoteServiceMessage, e: NoteEffect) -> bool {
    match msg {
        NoteServiceMessage::FetchDone(Ok(notes)) => {
            &&& new == (NoteModel {
                loading: false,
                op_state: NoteOpState::Idle,
                error_message: UiMessage::Empty,
                notes,
                connected: true,
                ..old
            })
            &&& e == (NoteEffect { notes_changed: true, ..no_effect() })
        },
        NoteServiceMessage::FetchDone(Err(err)) => {
            &&& new.error_message matches UiMessage::App(a) && note_reported_as(err, a)
            &&& new == (NoteModel {
                loading: false,
                op_state: NoteOpState::Idle,
                error_message: new.error_message,
                connected: false,
                ..old
            })
            &&& e == (NoteEffect { error_occurred: true, ..no_effect() })
        },
        NoteServiceMessage::CreateDone(Ok(note)) => {
            &&& new.notes@ == old.notes@.push(note)
            &&& new == (NoteModel {
                loading: false,
                op_state: NoteOpState::Idle,
                error_message: UiMessage::Empty,
                notes: new.notes,
                ..old
            })
            &&& e == (NoteEffect { notes_changed: true, ..no_effect() })
        },
        NoteServiceMessage::CreateDone(Err(err)) => {
            &&& new.error_message matches UiMessage::App(a) && note_reported_as(err, a)
            &&& new == (NoteModel {
                loading: false,
                op_state: NoteOpState::Idle,
                error_message: new.error_message,
                ..old
            })
            &&& e == (NoteEffect { error_occurred: true, ..no_effect() })
        },
        NoteServiceMessage::UpdateDone { index, result: Ok(updated) } => {
            &&& new == (NoteModel {
                op_state: NoteOpState::Idle,
                error_message: UiMessage::Empty,
                notes: new.notes,
                ..old
            })
            &&& if index < old.notes@.len() {
                &&& if leaves_listing(old.filter, updated) {
                    new.notes@ == old.notes@.remove(index as int)
                } else {
                    new.notes@ == old.notes@.update(index as int, updated)
                }
                &&& e == (NoteEffect { notes_changed: true, ..no_effect() })
            } else {
                new.notes@ == old.notes@ && e == no_effect()
            }
        },
        NoteServiceMessage::UpdateDone { index, result: Err(err) } => {
            &&& new.error_message matches UiMessage::App(a) && note_reported_as(err, a)
            &&& new == (NoteModel { op_state: NoteOpState::Idle, error_message: new.error_message, ..old })
            &&& e == (NoteEffect { error_occurred: true, ..no_effect() })
        },
        NoteServiceMessage::DeleteDone { index, result: Ok(_) } => {
            &&& new == (NoteModel {
                op_state: NoteOpState::Idle,
                error_message: UiMessage::Empty,
                notes: new.notes,
                ..old
            })
            &&& if index < old.notes@.len() {
                new.notes@ == old.notes@.remove(index as int) && e == (NoteEffect {
                    notes_changed: true,
                    ..no_effect()
                })
            } else {
                new.notes@ == old.notes@ && e == no_effect()
            }
        },
        NoteServiceMessage::DeleteDone { index, result: Err(err) } => {
            &&& new.error_message matches UiMessage::App(a) && note_reported_as(err, a)
            &&& new == (NoteModel { op_state: NoteOpState::Idle, error_message: new.error_message, ..old })
            &&& e == (NoteEffect { error_occurred: true, ..no_effect() })
        },
    }
}

/// The reminder a reminder text sets: none for a blank text, else the
/// instant (in whole seconds) of the RFC 3339 timestamp it holds, and none
/// when it holds no such timestamp.
pub open spec fn reminder_of(iso: Seq<char>) -> Option<i64> {
    if trim_spec(iso).len() == 0 {
        None
    } else {
        match rfc3339_instant(iso) {
            Some(m) => Some(m.secs),
            None => None,
        }
    }
}

/// The time `secs` (seconds since the epoch) written in UTC with the
/// format `fmt`; empty when it is out of range.
pub open spec fn utc_time_text(secs: i64, fmt: Seq<char>) -> Seq<char> {
    if utc_in_range(secs, 0) {
        match utc_formatted(Moment { secs, nanos: 0 }, fmt) {
            Some(t) => t,
            None => Seq::empty(),
        }
    } else {
        Seq::empty()
    }
}

/// The time `secs` written in UTC with `fmt`, empty when out of range.
fn time_text(secs: i64, fmt: &str) -> (r: String)
    requires
        crate::dates::utc_format(fmt@),
    ensures
        r@ == utc_time_text(secs, fmt@),
{
    match utc_moment(secs, 0) {
        Some(m) => match format_utc(m, fmt) {
            Some(t) => t,
            None => String::new(),
        },
        None => String::new(),
    }
}

/// State of the note list model.
#[derive(Debug, Clone)]
pub struct NoteModel {
    pub loading: bool,
    pub connected: bool,
    pub error_message: UiMessage,
    pub notes: Vec<Note>,
    /// Whether a note client is attached.
    pub has_client: bool,
    pub op_state: NoteOpState,
    pub filter: NoteViewFilter,
}

impl NoteModel {
    /// An empty model with no client attached.
    pub fn new() -> (r: Self)
        ensures
            !r.loading,
            !r.connected,
            r.error_message == UiMessage::Empty,
            r.notes@.len() == 0,
            !r.has_client,
            r.op_state == NoteOpState::Idle,
            r.filter == NoteViewFilter::All,
    {
        NoteModel {
            loading: false,
            connected: false,
            error_message: UiMessage::Empty,
            notes: Vec::new(),
            has_client: false,
            op_state: NoteOpState::Idle,
            filter: NoteViewFilter::All,
        }
    }

    /// Attach the note client.
    pub fn initialize(&mut self)
        ensures
            *final(self) == (NoteModel { has_client: true, ..*old(self) }),
    {
        self.has_client = true;
    }

    /// The note at `index`, if the index is valid.
    pub fn get_note(&self, index: i32) -> (r: Option<&Note>)
        ensures
            valid_index(index, self.notes@.len()) ==> r == Some(&self.notes@[index as int]),
            !valid_index(index, self.notes@.len()) ==> r is None,
    {
        if index < 0 {
            return None;
        }
        if (index as usize) < self.notes.len() {
            Some(&self.notes[index as usize])
        } else {
            None
        }
    }

    /// Fetch the notes of the current filter.
    pub fn fetch_notes(&mut self) -> (e: NoteEffect)
        ensures
            old(self).op_state != NoteOpState::Idle ==> *final(self) == *old(self) && e
                == no_effect(),
            old(self).op_state == NoteOpState::Idle && !old(self).has_client ==> {
                &&& final(self).error_message matches UiMessage::Text(t)
                &&& t@ == "Not initialized"@
                &&& *final(self) == (NoteModel { error_message: final(self).error_message, ..*old(self) })
                &&& e == (NoteEffect { error_occurred: true, ..no_effect() })
            },
            old(self).op_state == NoteOpState::Idle && old(self).has_client ==> {
                &&& *final(self) == (NoteModel {
                    loading: true,
                    error_message: UiMessage::Empty,
                    op_state: NoteOpState::Fetching,
                    ..*old(self)
                })
                &&& e == (NoteEffect { request: Some(NoteRequest::Fetch(service_filter(old(self).filter))), ..no_effect() })
            },
    {
        if self.op_state != NoteOpState::Idle {
            return NoteEffect { request: None, notes_changed: false, error_occurred: false };
        }
        if !self.has_client {
            self.error_message = ui_text("Not initialized");
            return NoteEffect { request: None, notes_changed: false, error_occurred: true };
        }
        self.loading = true;
        self.error_message = UiMessage::Empty;
        self.op_state = NoteOpState::Fetching;
        let f = match &self.filter {
            NoteViewFilter::All => NoteFilter::All,
            NoteViewFilter::Archived => NoteFilter::Archived,
            NoteViewFilter::Label(l) => NoteFilter::Label(l.clone()),
        };
        NoteEffect { request: Some(NoteRequest::Fetch(f)), notes_changed: false, error_occurred: false }
    }

    /// Common part of adding a note: refuse while busy or without a client
    /// or content, otherwise start creating it.
    fn start_create(&mut self, content: &str, is_checklist: bool, report_missing_client: bool) -> (e: NoteEffect)
        ensures
            old(self).op_state != NoteOpState::Idle ==> *final(self) == *old(self) && e == no_effect(),
            old(self).op_state == NoteOpState::Idle && !old(self).has_client ==> {
                if report_missing_client {
                    &&& final(self).error_message matches UiMessage::Text(t)
                    &&& t@ == "Not initialized"@
                    &&& *final(self) == (NoteModel { error_message: final(self).error_message, ..*old(self) })
                    &&& e == (NoteEffect { error_occurred: true, ..no_effect() })
                } else {
                    *final(self) == *old(self) && e == no_effect()
                }
            },
            old(self).op_state == NoteOpState::Idle && old(self).has_client && content@.len() == 0
                ==> *final(self) == *old(self) && e == no_effect(),
            old(self).op_state == NoteOpState::Idle && old(self).has_client && content@.len() > 0
                ==> {
                &&& *final(self) == (NoteModel {
                    loading: true,
                    error_message: UiMessage::Empty,
                    op_state: NoteOpState::Creating,
                    ..*old(self)
                })
                &&& e.request matches Some(NoteRequest::Create { content: c, is_checklist: k })
                &&& c@ == content@ && k == is_checklist
                &&& !e.notes_changed && !e.error_occurred
            },
    {
        if self.op_state != NoteOpState::Idle {
            return NoteEffect { request: None, notes_changed: false, error_occurred: false };
        }
        if !self.has_client {
            if report_missing_client {
                self.error_message = ui_text("Not initialized");
                return NoteEffect { request: None, notes_changed: false, error_occurred: true };
            }
            return NoteEffect { request: None, notes_changed: false, error_occurred: false };
        }
        if content.is_empty() {
            return NoteEffect { request: None, notes_changed: false, error_occurred: false };
        }
        self.loading = true;
        self.error_message = UiMessage::Empty;
        self.op_state = NoteOpState::Creating;
        NoteEffect {
            request: Some(NoteRequest::Create { content: crate::text::owned(content), is_checklist }),
            notes_changed: false,
            error_occurred: false,
        }
    }

    /// Add a plain note with the given content.
    pub fn add_note(&mut self, content: &str) -> (e: NoteEffect)
        ensures
            old(self).op_state != NoteOpState::Idle ==> *final(self) == *old(self) && e == no_effect(),
            old(self).op_state == NoteOpState::Idle && !old(self).has_client ==> {
                &&& final(self).error_message matches UiMessage::Text(t)
                &&& t@ == "Not initialized"@
                &&& *final(self) == (NoteModel { error_message: final(self).error_message, ..*old(self) })
                &&& e == (NoteEffect { error_occurred: true, ..no_effect() })
            },
            old(self).op_state == NoteOpState::Idle && old(self).has_client && content@.len() == 0
                ==> *final(self) == *old(self) && e == no_effect(),
            old(self).op_state == NoteOpState::Idle && old(self).has_client && content@.len() > 0
                ==> {
                &&& *final(self) == (NoteModel {
                    loading: true,
                    error_message: UiMessage::Empty,
                    op_state: NoteOpState::Creating,
                    ..*old(self)
                })
                &&& e.request matches Some(NoteRequest::Create { content: c, is_checklist: k })
                &&& c@ == content@ && !k
                &&& !e.notes_changed && !e.error_occurred
            },
    {
        self.start_create(content, false, true)
    }

    /// Add a checklist note with the given content.
    pub fn add_note_checklist(&mut self, content: &str) -> (e: NoteEffect)
        ensures
            old(self).op_state != NoteOpState::Idle || !old(self).has_client || content@.len() == 0
                ==> *final(self) == *old(self) && e == no_effect(),
            old(self).op_state == NoteOpState::Idle && old(self).has_client && content@.len() > 0
                ==> {
                &&& *final(self) == (NoteModel {
                    loading: true,
                    error_message: UiMessage::Empty,
                    op_state: NoteOpState::Creating,
                    ..*old(self)
                })
                &&& e.request matches Some(NoteRequest::Create { content: c, is_checklist: k })
                &&& c@ == content@ && k
                &&& !e.notes_changed && !e.error_occurred
            },
    {
        self.start_create(content, true, false)
    }

    /// Toggle the done status of the note at `index`.
    pub fn toggle_done(&mut self, index: i32) -> (e: NoteEffect)
        ensures
            old(self).op_state != NoteOpState::Idle || !valid_index(index, old(self).notes@.len())
                || !old(self).has_client ==> *final(self) == *old(self) && e == no_effect(),
            old(self).op_state == NoteOpState::Idle && valid_index(index, old(self).notes@.len())
                && old(self).has_client ==> {
                &&& *final(self) == (NoteModel { op_state: NoteOpState::Updating(index as usize), ..*old(self) })
                &&& e == (NoteEffect {
                    request: Some(NoteRequest::Update {
                        index: index as usize,
                        note_id: old(self).notes@[index as int].id,
                        update: NoteUpdate { done: Some(!old(self).notes@[index as int].done), ..empty_update() },
                    }),
                    ..no_effect()
                })
            },
    {
        if self.op_state != NoteOpState::Idle {
            return NoteEffect { request: None, notes_changed: false, error_occurred: false };
        }
        if index < 0 || index as usize >= self.notes.len() {
            return NoteEffect { request: None, notes_changed: false, error_occurred: false };
        }
        let i = index as usize;
        let note_id = self.notes[i].id;
        let current_done = self.notes[i].done;
        if !self.has_client {
            return NoteEffect { request: None, notes_changed: false, error_occurred: false };
        }
        self.op_state = NoteOpState::Updating(i);
        NoteEffect {
            request: Some(NoteRequest::Update { index: i, note_id, update: toggle_done_update(current_done) }),
            notes_changed: false,
            error_occurred: false,
        }
    }

    /// Delete the note at `index`.
    pub fn delete_note(&mut self, index: i32) -> (e: NoteEffect)
        ensures
            old(self).op_state != NoteOpState::Idle || !valid_index(index, old(self).notes@.len())
                || !old(self).has_client ==> *final(self) == *old(self) && e == no_effect(),
            old(self).op_state == NoteOpState::Idle && valid_index(index, old(self).notes@.len())
                && old(self).has_client ==> {
                &&& *final(self) == (NoteModel { op_state: NoteOpState::Deleting(index as usize), ..*old(self) })
                &&& e == (NoteEffect {
                    request: Some(NoteRequest::Delete {
                        index: index as usize,
                        note_id: old(self).notes@[index as int].id,
                    }),
                    ..no_effect()
                })
            },
    {
        if self.op_state != NoteOpState::Idle {
            return NoteEffect { request: None, notes_changed: false, error_occurred: false };
        }
        if index < 0 || index as usize >= self.notes.len() {
            return NoteEffect { request: None, notes_changed: false, error_occurred: false };
        }
        let i = index as usize;
        let note_id = self.notes[i].id;
        if !self.has_client {
            return NoteEffect { request: None, notes_changed: false, error_occurred: false };
        }
        self.op_state = NoteOpState::Deleting(i);
        NoteEffect { request: Some(NoteRequest::Delete { index: i, note_id }), notes_changed: false, error_occurred: false }
    }

    /// Send `update` for the note at `index`; returns whether it was sent.
    pub fn send_update(&mut self, index: i32, update: NoteUpdate) -> (r: (bool, NoteEffect))
        ensures
            old(self).op_state != NoteOpState::Idle || !valid_index(index, old(self).notes@.len())
                || !old(self).has_client ==> *final(self) == *old(self) && r == (false, no_effect()),
            old(self).op_state == NoteOpState::Idle && valid_index(index, old(self).notes@.len())
                && old(self).has_client ==> {
                &&& *final(self) == (NoteModel { op_state: NoteOpState::Updating(index as usize), ..*old(self) })
                &&& r == (true, NoteEffect {
                    request: Some(NoteRequest::Update {
                        index: index as usize,
                        note_id: old(self).notes@[index as int].id,
                        update,
                    }),
                    ..no_effect()
                })
            },
    {
        if self.op_state != NoteOpState::Idle {
            return (false, NoteEffect { request: None, notes_changed: false, error_occurred: false });
        }
        if index < 0 || index as usize >= self.notes.len() {
            return (false, NoteEffect { request: None, notes_changed: false, error_occurred: false });
        }
        let i = index as usize;
        let note_id = self.notes[i].id;
        if !self.has_client {
            return (false, NoteEffect { request: None, notes_changed: false, error_occurred: false });
        }
        self.op_state = NoteOpState::Updating(i);
        (true, NoteEffect { request: Some(NoteRequest::Update { index: i, note_id, update }), notes_changed: false, error_occurred: false })
    }

    /// Replace the content of the note at `index`.
    pub fn update_content(&mut self, index: i32, content: &str) -> (e: NoteEffect)
        ensures
            update_sent(*old(self), *final(self), index, e),
            e.request is Some ==> (requested_update(e).content matches Some(c) && c@ == content@),
            e.request is Some ==> requested_update(e) == (NoteUpdate { content: requested_update(e).content, ..empty_update() }),
    {
        let mut req = NoteUpdate::empty();
        req.content = Some(crate::text::owned(content));
        self.send_update(index, req).1
    }

    /// Set the color of the note at `index`; a blank color clears it.
    pub fn set_color(&mut self, index: i32, color: &str) -> (e: NoteEffect)
        ensures
            update_sent(*old(self), *final(self), index, e),
            e.request is Some ==> requested_update(e) == (NoteUpdate { color: requested_update(e).color, ..empty_update() }),
            e.request is Some && trim_spec(color@).len() == 0 ==> requested_update(e).color == Some(None::<String>),
            e.request is Some && trim_spec(color@).len() > 0 ==> (requested_update(e).color matches Some(Some(c)) && c@ == color@),
    {
        let mut req = NoteUpdate::empty();
        if trim(color).is_empty() {
            req.color = Some(None);
        } else {
            req.color = Some(Some(crate::text::owned(color)));
        }
        self.send_update(index, req).1
    }

    /// Pin or unpin the note at `index`.
    pub fn set_pinned(&mut self, index: i32, pinned: bool) -> (e: NoteEffect)
        ensures
            update_step(*old(self), *final(self), index, NoteUpdate { pinned: Some(pinned), ..empty_update() }, e),
    {
        let mut req = NoteUpdate::empty();
        req.pinned = Some(pinned);
        self.send_update(index, req).1
    }

    /// Archive the note at `index`.
    pub fn archive_note(&mut self, index: i32) -> (e: NoteEffect)
        ensures
            update_step(*old(self), *final(self), index, NoteUpdate { archived: Some(true), ..empty_update() }, e),
    {
        let mut req = NoteUpdate::empty();
        req.archived = Some(true);
        self.send_update(index, req).1
    }

    /// Unarchive the note at `index`.
    pub fn unarchive_note(&mut self, index: i32) -> (e: NoteEffect)
        ensures
            update_step(*old(self), *final(self), index, NoteUpdate { archived: Some(false), ..empty_update() }, e),
    {
        let mut req = NoteUpdate::empty();
        req.archived = Some(false);
        self.send_update(index, req).1
    }

    /// Set the reminder of the note at `index` from an RFC 3339 timestamp;
    /// a blank text clears it, and an unreadable one clears it too.
    pub fn set_reminder(&mut self, index: i32, iso: &str) -> (e: NoteEffect)
        ensures
            update_step(*old(self), *final(self), index, NoteUpdate { reminder: Some(reminder_of(iso@)), ..empty_update() }, e),
    {
        let mut req = NoteUpdate::empty();
        if trim(iso).is_empty() {
            req.reminder = Some(None);
        } else {
            req.reminder = Some(match parse_rfc3339_instant(iso) {
                Some(m) => Some(m.secs),
                None => None,
            });
        }
        self.send_update(index, req).1
    }

    /// Add `label` (trimmed) to the note at `index` unless it is blank or
    /// already there.
    pub fn add_label(&mut self, index: i32, label: &str) -> (e: NoteEffect)
        ensures
            trim_spec(label@).len() == 0 || !valid_index(index, old(self).notes@.len()) || has_label(
                old(self).notes@[index as int].labels@, trim_spec(label@)) ==> *final(self) == *old(self) && e == no_effect(),
            trim_spec(label@).len() > 0 && valid_index(index, old(self).notes@.len()) && !has_label(
                old(self).notes@[index as int].labels@, trim_spec(label@)) ==> {
                &&& update_sent(*old(self), *final(self), index, e)
                &&& e.request is Some ==> requested_update(e) == (NoteUpdate { labels: requested_update(e).labels, ..empty_update() })
                &&& e.request is Some ==> (requested_update(e).labels matches Some(ls)
                    && ls@.len() == old(self).notes@[index as int].labels@.len() + 1
                    && ls@.drop_last() == old(self).notes@[index as int].labels@
                    && ls@.last()@ == trim_spec(label@))
            },
    {
        let label_str = trim(label);
        if label_str.is_empty() {
            return NoteEffect { request: None, notes_changed: false, error_occurred: false };
        }
        let labels = match self.get_note(index) {
            Some(n) => n.labels.clone(),
            None => return NoteEffect { request: None, notes_changed: false, error_occurred: false },
        };
        let mut i: usize = 0;
        while i < labels.len()
            invariant
                i <= labels@.len(),
                labels@ == self.notes@[index as int].labels@,
                valid_index(index, self.notes@.len()),
                forall|j: int| 0 <= j < i ==> labels@[j]@ != label_str@,
                label_str@ == trim_spec(label@),
            decreases labels.len() - i,
        {
            if crate::text::str_eq(labels[i].as_str(), label_str) {
                return NoteEffect { request: None, notes_changed: false, error_occurred: false };
            }
            i = i + 1;
        }
        let mut ls = labels;
        ls.push(crate::text::owned(label_str));
        let mut req = NoteUpdate::empty();
        req.labels = Some(ls);
        self.send_update(index, req).1
    }

    /// Remove every occurrence of `label` from the note at `index`.
    pub fn remove_label(&mut self, index: i32, label: &str) -> (e: NoteEffect)
        ensures
            !valid_index(index, old(self).notes@.len()) ==> *final(self) == *old(self) && e == no_effect(),
            valid_index(index, old(self).notes@.len()) ==> {
                &&& update_sent(*old(self), *final(self), index, e)
                &&& e.request is Some ==> requested_update(e) == (NoteUpdate { labels: requested_update(e).labels, ..empty_update() })
                &&& e.request is Some ==> (requested_update(e).labels matches Some(ls)
                    && ls@ == without_label(old(self).notes@[index as int].labels@, label@))
            },
    {
        let labels = match self.get_note(index) {
            Some(n) => n.labels.clone(),
            None => return NoteEffect { request: None, notes_changed: false, error_occurred: false },
        };
        let mut kept: Vec<String> = Vec::new();
        let mut i: usize = 0;
        while i < labels.len()
            invariant
                i <= labels@.len(),
                kept@ == without_label(labels@.subrange(0, i as int), label@),
            decreases labels.len() - i,
        {
            assert(labels@.subrange(0, i + 1).drop_last() =~= labels@.subrange(0, i as int));
            if !crate::text::str_eq(labels[i].as_str(), label) {
                kept.push(labels[i].clone());
            }
            i = i + 1;
        }
        assert(labels@.subrange(0, labels@.len() as int) =~= labels@);
        let mut req = NoteUpdate::empty();
        req.labels = Some(kept);
        self.send_update(index, req).1
    }

    /// Select the listing by a filter string (`label:<name>`, `archived`,
    /// anything else for all notes) and fetch it.
    pub fn set_filter(&mut self, filter: &str) -> (e: NoteEffect)
        ensures
            filter_matches_text(final(self).filter, filter@),
            !old(self).has_client ==> *final(self) == (NoteModel { filter: final(self).filter, ..*old(self) })
                && e == no_effect(),
            old(self).has_client ==> {
                &&& *final(self) == (NoteModel {
                    filter: final(self).filter,
                    loading: true,
                    op_state: NoteOpState::Fetching,
                    ..*old(self)
                })
                &&& e == (NoteEffect { request: Some(NoteRequest::Fetch(service_filter(final(self).filter))), ..no_effect() })
            },
    {
        let new_filter = if crate::text::starts_with(filter, "label:") {
            proof { reveal_strlit("label:"); }
            NoteViewFilter::Label(crate::text::owned(crate::text::skip_chars(filter, 6)))
        } else if crate::text::str_eq(filter, "archived") {
            NoteViewFilter::Archived
        } else {
            NoteViewFilter::All
        };
        proof { reveal_strlit("label:"); }
        let f = match &new_filter {
            NoteViewFilter::All => NoteFilter::All,
            NoteViewFilter::Archived => NoteFilter::Archived,
            NoteViewFilter::Label(l) => NoteFilter::Label(l.clone()),
        };
        self.filter = new_filter;
        if !self.has_client {
            return NoteEffect { request: None, notes_changed: false, error_occurred: false };
        }
        self.loading = true;
        self.op_state = NoteOpState::Fetching;
        NoteEffect { request: Some(NoteRequest::Fetch(f)), notes_changed: false, error_occurred: false }
    }

    /// Take one completion from the note service, if one arrived.
    pub fn poll_channel(&mut self, msg: Option<NoteServiceMessage>) -> (e: NoteEffect)
        ensures
            msg is None ==> *final(self) == *old(self) && e == no_effect(),
            msg matches Some(m) ==> polled(*old(self), *final(self), m, e),
    {
        let msg = match msg {
            Some(m) => m,
            None => return NoteEffect { request: None, notes_changed: false, error_occurred: false },
        };
        match msg {
            NoteServiceMessage::FetchDone(result) => {
                self.loading = false;
                self.op_state = NoteOpState::Idle;
                match result {
                    Ok(notes) => {
                        self.error_message = UiMessage::Empty;
                        self.notes = notes;
                        self.connected = true;
                        NoteEffect { request: None, notes_changed: true, error_occurred: false }
                    },
                    Err(err) => {
                        self.error_message = UiMessage::App(err.to_app_error());
                        self.connected = false;
                        NoteEffect { request: None, notes_changed: false, error_occurred: true }
                    },
                }
            },
            NoteServiceMessage::CreateDone(result) => {
                self.loading = false;
                self.op_state = NoteOpState::Idle;
                match result {
                    Ok(note) => {
                        self.error_message = UiMessage::Empty;
                        self.notes.push(note);
                        NoteEffect { request: None, notes_changed: true, error_occurred: false }
                    },
                    Err(err) => {
                        self.error_message = UiMessage::App(err.to_app_error());
                        NoteEffect { request: None, notes_changed: false, error_occurred: true }
                    },
                }
            },
            NoteServiceMessage::UpdateDone { index, result } => {
                self.op_state = NoteOpState::Idle;
                match result {
                    Ok(updated) => {
                        self.error_message = UiMessage::Empty;
                        if index < self.notes.len() {
                            let should_remove = match self.filter {
                                NoteViewFilter::All => updated.archived,
                                NoteViewFilter::Archived => !updated.archived,
                                NoteViewFilter::Label(_) => false,
                            };
                            if should_remove {
                                self.notes.remove(index);
                            } else {
                                self.notes.set(index, updated);
                            }
                            NoteEffect { request: None, notes_changed: true, error_occurred: false }
                        } else {
                            NoteEffect { request: None, notes_changed: false, error_occurred: false }
                        }
                    },
                    Err(err) => {
                        self.error_message = UiMessage::App(err.to_app_error());
                        NoteEffect { request: None, notes_changed: false, error_occurred: true }
                    },
                }
            },
            NoteServiceMessage::DeleteDone { index, result } => {
                self.op_state = NoteOpState::Idle;
                match result {
                    Ok(_) => {
                        self.error_message = UiMessage::Empty;
                        if index < self.notes.len() {
                            self.notes.remove(index);
                            NoteEffect { request: None, notes_changed: true, error_occurred: false }
                        } else {
                            NoteEffect { request: None, notes_changed: false, error_occurred: false }
                        }
                    },
                    Err(err) => {
                        self.error_message = UiMessage::App(err.to_app_error());
                        NoteEffect { request: None, notes_changed: false, error_occurred: true }
                    },
                }
            },
        }
    }

    /// Number of notes listed.
    pub fn row_count(&self) -> (r: i32)
        ensures
            r == self.notes@.len() as i32,
    {
        self.notes.len() as i32
    }

    /// Content of the note at `index`, empty for an invalid index.
    pub fn get_content(&self, index: i32) -> (r: String)
        ensures
            valid_index(index, self.notes@.len()) ==> r@ == self.notes@[index as int].content@,
            !valid_index(index, self.notes@.len()) ==> r@ == Seq::<char>::empty(),
    {
        match self.get_note(index) {
            Some(n) => n.content.clone(),
            None => String::new(),
        }
    }

    /// Done status of the note at `index`, false for an invalid index.
    pub fn get_done(&self, index: i32) -> (r: bool)
        ensures
            r == (valid_index(index, self.notes@.len()) && self.notes@[index as int].done),
    {
        match self.get_note(index) {
            Some(n) => n.done,
            None => false,
        }
    }

    /// Id of the note at `index` in decimal, empty for an invalid index.
    pub fn get_id(&self, index: i32) -> (r: String)
        ensures
            valid_index(index, self.notes@.len()) ==> r@ == decimal_text(self.notes@[index as int].id as int),
            !valid_index(index, self.notes@.len()) ==> r@.len() == 0,
    {
        match self.get_note(index) {
            Some(n) => i64_to_string(n.id),
            None => String::new(),
        }
    }

    /// Creation time of the note at `index` as `%Y-%m-%d %H:%M` (UTC), empty
    /// for an invalid index.
    pub fn get_created_at(&self, index: i32) -> (r: String)
        ensures
            valid_index(index, self.notes@.len()) ==> r@ == utc_time_text(self.notes@[index as int].created_at, "%Y-%m-%d %H:%M"@),
            !valid_index(index, self.notes@.len()) ==> r@.len() == 0,
    {
        match self.get_note(index) {
            Some(n) => time_text(n.created_at, "%Y-%m-%d %H:%M"),
            None => String::new(),
        }
    }

    /// Reminder of the note at `index` as `%Y-%m-%dT%H:%M:%SZ`, empty when it
    /// has none or the index is invalid.
    pub fn get_reminder(&self, index: i32) -> (r: String)
        ensures
            valid_index(index, self.notes@.len()) && self.notes@[index as int].reminder is Some
                ==> r@ == utc_time_text(self.notes@[index as int].reminder->Some_0, "%Y-%m-%dT%H:%M:%SZ"@),
            !(valid_index(index, self.notes@.len()) && self.notes@[index as int].reminder is Some) ==> r@.len() == 0,
    {
        match self.get_note(index) {
            Some(n) => match n.reminder {
                Some(t) => time_text(t, "%Y-%m-%dT%H:%M:%SZ"),
                None => String::new(),
            },
            None => String::new(),
        }
    }

    /// Color of the note at `index`, empty when it has none or the index is invalid.
    pub fn get_color(&self, index: i32) -> (r: String)
        ensures
            valid_index(index, self.notes@.len()) && self.notes@[index as int].color is Some
                ==> r@ == self.notes@[index as int].color.unwrap()@,
            !(valid_index(index, self.notes@.len()) && self.notes@[index as int].color is Some)
                ==> r@ == Seq::<char>::empty(),
    {
        match self.get_note(index) {
            Some(n) => match &n.color {
                Some(c) => c.clone(),
                None => String::new(),
            },
            None => String::new(),
        }
    }

    /// Pinned status of the note at `index`, false for an invalid index.
    pub fn get_pinned(&self, index: i32) -> (r: bool)
        ensures
            r == (valid_index(index, self.notes@.len()) && self.notes@[index as int].pinned),
    {
        match self.get_note(index) {
            Some(n) => n.pinned,
            None => false,
        }
    }

    /// Archived status of the note at `index`, false for an invalid index.
    pub fn get_archived(&self, index: i32) -> (r: bool)
        ensures
            r == (valid_index(index, self.notes@.len()) && self.notes@[index as int].archived),
    {
        match self.get_note(index) {
            Some(n) => n.archived,
            None => false,
        }
    }

    /// Checklist status of the note at `index`, false for an invalid index.
    pub fn get_is_checklist(&self, index: i32) -> (r: bool)
        ensures
            r == (valid_index(index, self.notes@.len()) && self.notes@[index as int].is_checklist),
    {
        match self.get_note(index) {
            Some(n) => n.is_checklist,
            None => false,
        }
    }

    /// Labels of the note at `index`, empty for an invalid index.
    pub fn get_labels(&self, index: i32) -> (r: Vec<String>)
        ensures
            valid_index(index, self.notes@.len()) ==> r@ == self.notes@[index as int].labels@,
            !valid_index(index, self.notes@.len()) ==> r@.len() == 0,
    {
        match self.get_note(index) {
            Some(n) => {
                let mut out: Vec<String> = Vec::new();
                let mut i: usize = 0;
                while i < n.labels.len()
                    invariant
                        i <= n.labels@.len(),
                        out@ == n.labels@.subrange(0, i as int),
                    decreases n.labels.len() - i,
                {
                    out.push(n.labels[i].clone());
                    i = i + 1;
                    assert(out@ =~= n.labels@.subrange(0, i as int));
                }
                assert(n.labels@.subrange(0, n.labels@.len() as int) =~= n.labels@);
                out
            },
            None => Vec::new(),
        }
    }
}


/// Whether a service completion reports a failure.
pub open spec fn note_failure(msg: NoteServiceMessage) -> bool {
    match msg {
        NoteServiceMessage::FetchDone(r) => r is Err,
        NoteServiceMessage::CreateDone(r) => r is Err,
        NoteServiceMessage::UpdateDone { result, .. } => result is Err,
        NoteServiceMessage::DeleteDone { result, .. } => result is Err,
    }
}

/// Every service completion, whatever it reports, leaves the model idle and
/// ready for the next request, and requests nothing by itself.
pub proof fn law_completion_returns_to_idle(old: NoteModel, new: NoteModel, msg: NoteServiceMessage, e: NoteEffect)
    requires
        polled(old, new, msg, e),
    ensures
        new.op_state == NoteOpState::Idle,
        e.request is None,
{
}

/// A failed operation keeps the listed notes and the filter as they were,
/// shows the error and raises the error signal; a successful one clears any
/// earlier error.
pub proof fn law_failure_keeps_notes(old: NoteModel, new: NoteModel, msg: NoteServiceMessage, e: NoteEffect)
    requires
        polled(old, new, msg, e),
    ensures
        note_failure(msg) ==> new.notes@ == old.notes@ && new.filter == old.filter && e.error_occurred
            && new.error_message is App,
        !note_failure(msg) ==> new.error_message == UiMessage::Empty && !e.error_occurred,
{
}

/// While an operation is in flight, a request to change a note changes
/// nothing and sends nothing.
pub proof fn law_busy_model_refuses_updates(old: NoteModel, new: NoteModel, index: i32, e: NoteEffect)
    requires
        update_sent(old, new, index, e),
        old.op_state != NoteOpState::Idle,
    ensures
        new == old,
        e.request is None,
{
}

/// Removing a label keeps the labels without it in their order; so
/// removing a label that was just added to labels lacking it gives the
/// labels back as they were.
pub proof fn law_remove_undoes_add_label(labels: Seq<String>, added: String)
    requires
        !has_label(labels, added@),
    ensures
        without_label(labels, added@) == labels,
        without_label(labels.push(added), added@) == labels,
    decreases labels.len(),
{
    if labels.len() > 0 {
        let rest = labels.drop_last();
        assert(!has_label(rest, added@)) by {
            if has_label(rest, added@) {
                let k = choose|k: int| 0 <= k < rest.len() && #[trigger] rest[k]@ == added@;
                assert(labels[k] == rest[k]);
            }
        }
        law_remove_undoes_add_label(rest, added);
        assert(labels[labels.len() - 1]@ != added@);
        assert(rest.push(labels.last()) =~= labels);
    }
    assert(labels.push(added).drop_last() =~= labels);
}

} // verus!
