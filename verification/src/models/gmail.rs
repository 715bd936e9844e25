use vstd::prelude::*;

use crate::dates::{format_rfc3339, rfc3339_text};
use crate::json::lists::{bool_to_json, json_bool, json_quoted, quote_json};
use crate::models::valid_index;
use crate::services::gmail::{GmailMessage, GmailServiceMessage};
use crate::services::google::{google_cache_path_in, myme_dir};
use crate::text::{concat, concat3, joined_path, owned};

verus! {

/// A request the mail model hands to the mail service.
#[derive(Debug, Clone, PartialEq, Eq)]
pub enum GmailRequest {
    /// Fetch the messages with `token`, caching them at `cache_path`.
    Fetch { token: String, cache_path: String },
    MarkAsRead { token: String, message_id: String },
    Archive { token: String, message_id: String },
    Trash { token: String, message_id: String },
}

/// What a mail model step signals.
#[derive(Debug, Clone, PartialEq, Eq)]
pub struct GmailEffect {
    pub messages_changed: bool,
    /// The message an action was applied to (the `message_updated` signal).
    pub message_updated: Option<String>,
    /// The messages are to be fetched again (`fetch_messages`).
    pub refetch: bool,
}

/// A step that signals nothing.
pub open spec fn no_gmail_effect() -> GmailEffect {
    GmailEffect { messages_changed: false, message_updated: None, refetch: false }
}

/// The number of unread messages.
pub open spec fn unread_in(ms: Seq<GmailMessage>) -> int
    decreases ms.len(),
{
    if ms.len() == 0 {
        0
    } else {
        unread_in(ms.drop_last()) + if ms.last().is_unread { 1int } else { 0int }
    }
}

/// The JSON object describing a message, its keys in alphabetical order.
pub open spec fn message_json(m: GmailMessage) -> Seq<char> {
    "{\"date\":"@ + json_quoted(match rfc3339_text(m.date) {
        Some(t) => t,
        None => Seq::empty(),
    }) + ",\"from\":"@ + json_quoted(m.from@) + ",\"id\":"@ + json_quoted(m.id@) + ",\"isStarred\":"@
        + json_bool(m.is_starred) + ",\"isUnread\":"@ + json_bool(m.is_unread) + ",\"snippet\":"@
        + json_quoted(m.snippet@) + ",\"subject\":"@ + json_quoted(m.subject@) + "}"@
}

/// State of the mail view.
#[derive(Debug, Clone)]
pub struct GmailModel {
    pub loading: bool,
    pub authenticated: bool,
    pub error_message: String,
    pub unread_count: i32,
    pub message_count: i32,
    pub messages: Vec<GmailMessage>,
}

/// No more messages are unread than there are messages.
pub proof fn law_unread_within_total(ms: Seq<GmailMessage>)
    ensures
        0 <= unread_in(ms) <= ms.len(),
    decreases ms.len(),
{
    if ms.len() > 0 {
        law_unread_within_total(ms.drop_last());
    }
}

/// The number of unread messages.
fn count_unread(ms: &Vec<GmailMessage>) -> (r: usize)
    ensures
        r == unread_in(ms@),
{
    let mut n: usize = 0;
    let mut i: usize = 0;
    while i < ms.len()
        invariant
            i <= ms@.len(),
            n == unread_in(ms@.subrange(0, i as int)),
            n <= i,
        decreases ms.len() - i,
    {
        assert(ms@.subrange(0, i + 1).drop_last() =~= ms@.subrange(0, i as int));
        if ms[i].is_unread {
            n = n + 1;
        }
        i = i + 1;
    }
    assert(ms@.subrange(0, ms@.len() as int) =~= ms@);
    n
}

/// The JSON object describing a message.
fn message_to_json(m: &GmailMessage) -> (r: String)
    ensures
        r@ == message_json(*m),
{
    let date = match format_rfc3339(m.date) {
        Some(t) => t,
        None => String::new(),
    };
    let mut s = concat("{\"date\":", quote_json(date.as_str()).as_str());
    s = concat3(s.as_str(), ",\"from\":", quote_json(m.from.as_str()).as_str());
    s = concat3(s.as_str(), ",\"id\":", quote_json(m.id.as_str()).as_str());
    s = concat3(s.as_str(), ",\"isStarred\":", bool_to_json(m.is_starred).as_str());
    s = concat3(s.as_str(), ",\"isUnread\":", bool_to_json(m.is_unread).as_str());
    s = concat3(s.as_str(), ",\"snippet\":", quote_json(m.snippet.as_str()).as_str());
    s = concat3(s.as_str(), ",\"subject\":", quote_json(m.subject.as_str()).as_str());
    concat(s.as_str(), "}")
}

impl GmailModel {
    /// An empty model.
    pub fn new() -> (r: Self)
        ensures
            !r.loading && !r.authenticated,
            r.error_message@.len() == 0,
            r.unread_count == 0 && r.message_count == 0,
            r.messages@.len() == 0,
    {
        GmailModel {
            loading: false,
            authenticated: false,
            error_message: String::new(),
            unread_count: 0,
            message_count: 0,
            messages: Vec::new(),
        }
    }

    /// Refresh the authentication flag from whether a Google token is
    /// stored; when it is, `cached_unread` (the unread count the local
    /// cache holds, if it could tell) becomes the unread count.
    pub fn check_auth(&mut self, has_token: bool, cached_unread: Option<u32>)
        ensures
            has_token && cached_unread is Some ==> *final(self) == (GmailModel {
                authenticated: true,
                unread_count: cached_unread->Some_0 as i32,
                ..*old(self)
            }),
            !(has_token && cached_unread is Some) ==> *final(self) == (GmailModel { authenticated: has_token, ..*old(self) }),
    {
        self.authenticated = has_token;
        if has_token {
            if let Some(n) = cached_unread {
                self.unread_count = n as i32;
            }
        }
    }

    /// Start fetching the messages: `access_token` is the stored Google
    /// token, if any; the cache lives in the application's configuration
    /// directory inside `config_dir`.
    pub fn fetch_messages(&mut self, access_token: Option<String>, channel_ready: bool, config_dir: Option<String>) -> (r: Option<GmailRequest>)
        ensures
            match access_token {
                None => {
                    &&& r is None
                    &&& final(self).error_message@ == "Not authenticated"@
                    &&& *final(self) == (GmailModel { error_message: final(self).error_message, authenticated: false, ..*old(self) })
                },
                Some(t) => if !channel_ready {
                    &&& r is None
                    &&& final(self).error_message@ == "Service channel not ready"@
                    &&& *final(self) == (GmailModel { error_message: final(self).error_message, ..*old(self) })
                } else {
                    &&& r matches Some(GmailRequest::Fetch { token, cache_path }) && token == t
                        && cache_path@ == joined_path(myme_dir(config_dir), "gmail_cache.db"@)
                    &&& final(self).error_message@.len() == 0
                    &&& *final(self) == (GmailModel { loading: true, error_message: final(self).error_message, ..*old(self) })
                },
            },
    {
        let token = match access_token {
            Some(t) => t,
            None => {
                self.error_message = owned("Not authenticated");
                self.authenticated = false;
                return None;
            },
        };
        if !channel_ready {
            self.error_message = owned("Service channel not ready");
            return None;
        }
        self.loading = true;
        self.error_message = String::new();
        Some(GmailRequest::Fetch { token, cache_path: google_cache_path_in(config_dir, "gmail_cache.db") })
    }

    /// The message at `index` as a JSON object, `{}` for an invalid index.
    pub fn get_message(&self, index: i32) -> (r: String)
        ensures
            valid_index(index, self.messages@.len()) ==> r@ == message_json(self.messages@[index as int]),
            !valid_index(index, self.messages@.len()) ==> r@ == "{}"@,
    {
        if index < 0 || index as usize >= self.messages.len() {
            return owned("{}");
        }
        message_to_json(&self.messages[index as usize])
    }

    /// Mark the message `message_id` as read: the request to send, when a
    /// token is stored and the service channel is ready.
    pub fn mark_as_read(&self, access_token: Option<String>, channel_ready: bool, message_id: &str) -> (r: Option<GmailRequest>)
        ensures
            access_token is None || !channel_ready ==> r is None,
            access_token matches Some(t) ==> (channel_ready ==> (r matches Some(GmailRequest::MarkAsRead { token, message_id: m })
                && token == t && m@ == message_id@)),
    {
        match access_token {
            Some(t) => if channel_ready {
                Some(GmailRequest::MarkAsRead { token: t, message_id: owned(message_id) })
            } else {
                None
            },
            None => None,
        }
    }

    /// Archive the message `message_id`: the request to send, when a token
    /// is stored and the service channel is ready.
    pub fn archive_message(&self, access_token: Option<String>, channel_ready: bool, message_id: &str) -> (r: Option<GmailRequest>)
        ensures
            access_token is None || !channel_ready ==> r is None,
            access_token matches Some(t) ==> (channel_ready ==> (r matches Some(GmailRequest::Archive { token, message_id: m })
                && token == t && m@ == message_id@)),
    {
        match access_token {
            Some(t) => if channel_ready {
                Some(GmailRequest::Archive { token: t, message_id: owned(message_id) })
            } else {
                None
            },
            None => None,
        }
    }

    /// Move the message `message_id` to the trash: the request to send, when
    /// a token is stored and the service channel is ready.
    pub fn trash_message(&self, access_token: Option<String>, channel_ready: bool, message_id: &str) -> (r: Option<GmailRequest>)
        ensures
            access_token is None || !channel_ready ==> r is None,
            access_token matches Some(t) ==> (channel_ready ==> (r matches Some(GmailRequest::Trash { token, message_id: m })
                && token == t && m@ == message_id@)),
    {
        match access_token {
            Some(t) => if channel_ready {
                Some(GmailRequest::Trash { token: t, message_id: owned(message_id) })
            } else {
                None
            },
            None => None,
        }
    }

    /// Take one completion from the mail service, if one arrived.  Fetched
    /// messages replace the list with their counts; a finished action
    /// signals the message and asks for the messages again.
    pub fn poll_channel(&mut self, msg: Option<GmailServiceMessage>) -> (e: GmailEffect)
        ensures
            match msg {
                None => *final(self) == *old(self) && e == no_gmail_effect(),
                Some(GmailServiceMessage::FetchDone(Ok(ms))) => {
                    &&& final(self).unread_count == unread_in(ms@) as i32
                    &&& final(self).message_count == ms@.len() as i32
                    &&& final(self).error_message@.len() == 0
                    &&& *final(self) == (GmailModel {
                        loading: false,
                        unread_count: final(self).unread_count,
                        message_count: final(self).message_count,
                        messages: ms,
                        error_message: final(self).error_message,
                        ..*old(self)
                    })
                    &&& e == (GmailEffect { messages_changed: true, ..no_gmail_effect() })
                },
                Some(GmailServiceMessage::FetchDone(Err(err))) => {
                    &&& final(self).error_message == err
                    &&& *final(self) == (GmailModel { loading: false, error_message: err, ..*old(self) })
                    &&& e == no_gmail_effect()
                },
                Some(GmailServiceMessage::ActionDone(Ok(id))) => {
                    &&& *final(self) == *old(self)
                    &&& e == (GmailEffect { message_updated: Some(id), refetch: true, ..no_gmail_effect() })
                },
                Some(GmailServiceMessage::ActionDone(Err(err))) => {
                    &&& *final(self) == (GmailModel { error_message: err, ..*old(self) })
                    &&& e == no_gmail_effect()
                },
            },
    {
        let quiet = GmailEffect { messages_changed: false, message_updated: None, refetch: false };
        let msg = match msg {
            Some(m) => m,
            None => return quiet,
        };
        match msg {
            GmailServiceMessage::FetchDone(result) => {
                self.loading = false;
                match result {
                    Ok(messages) => {
                        let unread = count_unread(&messages);
                        self.unread_count = unread as i32;
                        self.message_count = messages.len() as i32;
                        self.messages = messages;
                        self.error_message = String::new();
                        GmailEffect { messages_changed: true, ..quiet }
                    },
                    Err(err) => {
                        self.error_message = err;
                        quiet
                    },
                }
            },
            GmailServiceMessage::ActionDone(result) => match result {
                Ok(id) => GmailEffect { message_updated: Some(id), refetch: true, ..quiet },
                Err(err) => {
                    self.error_message = err;
                    quiet
                },
            },
        }
    }
}

} // verus!
