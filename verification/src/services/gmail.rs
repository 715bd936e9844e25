use vstd::prelude::*;

use crate::dates::Moment;

verus! {

/// A message of the mailbox, as the mail service lists it.
#[derive(Debug, Clone, PartialEq, Eq)]
pub struct GmailMessage {
    pub id: String,
    pub from: String,
    pub subject: String,
    pub snippet: String,
    /// When the message was received.
    pub date: Moment,
    pub is_unread: bool,
    pub is_starred: bool,
}

/// Messages sent from asynchronous mail operations back to the UI thread.
#[derive(Debug)]
pub enum GmailServiceMessage {
    /// Result of fetching the messages (the error's user message on failure).
    FetchDone(Result<Vec<GmailMessage>, String>),
    /// Result of an action on one message: its id, or the error's text.
    ActionDone(Result<String, String>),
}

} // verus!
