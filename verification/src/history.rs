//! The history: what the store answers to a read, put into the form in
//! which it is handed out. The store selects, orders and limits; here each
//! row of its answer becomes a message with its author.

use vstd::prelude::*;
use crate::ident::{parsed_uuid, uuid_from_text};
use crate::model::{User, UserView};

verus! {

/// What the store is asked for: at most `limit` messages, newest first, of
/// one topic or, without a topic, of all.
#[derive(Debug, PartialEq, Eq)]
pub struct HistoryQuery {
    pub topic_id: Option<u128>,
    pub limit: i64,
}

/// The topic that a reader of the history named spells no identifier.
#[derive(Debug, PartialEq, Eq)]
pub struct MalformedTopic;

impl HistoryQuery {
    /// The query for a topic identifier that was read already: `None` where
    /// the reader named no topic, `Some(None)` where the name spelled no
    /// identifier.
    pub fn about(topic_id: Option<Option<u128>>, limit: i64) -> (query: Result<
        HistoryQuery,
        MalformedTopic,
    >)
        ensures
            query == match topic_id {
                None => Ok::<HistoryQuery, MalformedTopic>(HistoryQuery { topic_id: None, limit }),
                Some(Some(id)) => Ok(HistoryQuery { topic_id: Some(id), limit }),
                Some(None) => Err(MalformedTopic),
            },
    {
        match topic_id {
            None => Ok(HistoryQuery { topic_id: None, limit }),
            Some(Some(id)) => Ok(HistoryQuery { topic_id: Some(id), limit }),
            Some(None) => Err(MalformedTopic),
        }
    }

    /// The query that a reader asks for: the topic, where one is named, is
    /// read from its text, and a text that spells no identifier is rejected
    /// before the store is asked.
    pub fn read(topic: Option<&str>, limit: i64) -> (query: Result<HistoryQuery, MalformedTopic>)
        ensures
            query == match topic {
                None => Ok::<HistoryQuery, MalformedTopic>(HistoryQuery { topic_id: None, limit }),
                Some(text) => match parsed_uuid(text@) {
                    Some(id) => Ok(HistoryQuery { topic_id: Some(id), limit }),
                    None => Err(MalformedTopic),
                },
            },
    {
        match topic {
            None => HistoryQuery::about(None, limit),
            Some(text) => HistoryQuery::about(Some(uuid_from_text(text)), limit),
        }
    }
}

/// One row of the store's answer: a message joined with its author's name.
#[derive(Debug, PartialEq, Eq)]
pub struct MessageRow {
    pub message_id: u128,
    pub username: String,
    pub content: String,
    pub sent_at: i64,
    pub topic_id: u128,
    pub user_id: u128,
}

/// What a `MessageRow` is in contracts.
pub struct MessageRowView {
    pub message_id: u128,
    pub username: Seq<char>,
    pub content: Seq<char>,
    pub sent_at: i64,
    pub topic_id: u128,
    pub user_id: u128,
}

impl View for MessageRow {
    type V = MessageRowView;

    open spec fn view(&self) -> MessageRowView {
        MessageRowView {
            message_id: self.message_id,
            username: self.username@,
            content: self.content@,
            sent_at: self.sent_at,
            topic_id: self.topic_id,
            user_id: self.user_id,
        }
    }
}

/// A message of the history, with its author.
#[derive(Debug, PartialEq, Eq)]
pub struct AuthoredMessage {
    pub message_id: u128,
    pub content: String,
    pub sent_at: i64,
    pub topic_id: u128,
    pub user: User,
}

/// What an `AuthoredMessage` is in contracts.
pub struct AuthoredMessageView {
    pub message_id: u128,
    pub content: Seq<char>,
    pub sent_at: i64,
    pub topic_id: u128,
    pub user: UserView,
}

impl View for AuthoredMessage {
    type V = AuthoredMessageView;

    open spec fn view(&self) -> AuthoredMessageView {
        AuthoredMessageView {
            message_id: self.message_id,
            content: self.content@,
            sent_at: self.sent_at,
            topic_id: self.topic_id,
            user: self.user@,
        }
    }
}

/// The message that a row stands for.
pub open spec fn authored(row: MessageRowView) -> AuthoredMessageView {
    AuthoredMessageView {
        message_id: row.message_id,
        content: row.content,
        sent_at: row.sent_at,
        topic_id: row.topic_id,
        user: UserView { user_id: row.user_id, username: row.username },
    }
}

/// The messages that rows stand for, one for each row, in the same order.
pub open spec fn authored_all(rows: Seq<MessageRow>) -> Seq<AuthoredMessageView> {
    rows.map_values(|row: MessageRow| authored(row@))
}

/// The message that one row stands for.
pub fn structure_row(row: &MessageRow) -> (message: AuthoredMessage)
    ensures
        message@ == authored(row@),
{
    AuthoredMessage {
        message_id: row.message_id,
        content: row.content.clone(),
        sent_at: row.sent_at,
        topic_id: row.topic_id,
        user: User { user_id: row.user_id, username: row.username.clone() },
    }
}

/// The messages that the rows stand for, one for each row, in the same
/// order: what the store put newest first stays newest first.
pub fn structure_messages(rows: &Vec<MessageRow>) -> (messages: Vec<AuthoredMessage>)
    ensures
        messages@.map_values(|message: AuthoredMessage| message@) == authored_all(rows@),
{
    let mut messages: Vec<AuthoredMessage> = Vec::new();
    let mut i: usize = 0;
    while i < rows.len()
        invariant
            0 <= i <= rows.len(),
            messages@.len() == i,
            forall|k: int| 0 <= k < i ==> (#[trigger] messages@[k])@ == authored(rows@[k]@),
        decreases rows.len() - i,
    {
        messages.push(structure_row(&rows[i]));
        i += 1;
    }
    messages
}

} // verus!
