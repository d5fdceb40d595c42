//! The records that the service stores and distributes.
//!
//! Identifiers are UUIDs, held as their 128-bit value. A point in time is the
//! number of microseconds since 1970-01-01T00:00:00, without a time zone.

use vstd::prelude::*;

verus! {

/// A registered author.
#[derive(Debug, PartialEq, Eq)]
pub struct User {
    pub user_id: u128,
    pub username: String,
}

/// What a `User` is in contracts.
pub struct UserView {
    pub user_id: u128,
    pub username: Seq<char>,
}

impl View for User {
    type V = UserView;

    open spec fn view(&self) -> UserView {
        UserView { user_id: self.user_id, username: self.username@ }
    }
}

impl Clone for User {
    fn clone(&self) -> (copy: User)
        ensures
            copy@ == self@,
    {
        User { user_id: self.user_id, username: self.username.clone() }
    }
}

/// A named channel over which messages are grouped and distributed.
#[derive(Debug, PartialEq, Eq)]
pub struct Topic {
    pub topic_id: u128,
    pub name: String,
    pub description: String,
}

/// What a `Topic` is in contracts.
pub struct TopicView {
    pub topic_id: u128,
    pub name: Seq<char>,
    pub description: Seq<char>,
}

impl View for Topic {
    type V = TopicView;

    open spec fn view(&self) -> TopicView {
        TopicView { topic_id: self.topic_id, name: self.name@, description: self.description@ }
    }
}

impl Clone for Topic {
    fn clone(&self) -> (copy: Topic)
        ensures
            copy@ == self@,
    {
        Topic {
            topic_id: self.topic_id,
            name: self.name.clone(),
            description: self.description.clone(),
        }
    }
}

/// A persisted message: it belongs to one topic and one author, and the store
/// has given it its identifier and its time.
#[derive(Debug, PartialEq, Eq)]
pub struct Message {
    pub message_id: u128,
    pub topic_id: u128,
    pub user_id: u128,
    pub content: String,
    pub sent_at: i64,
}

/// What a `Message` is in contracts.
pub struct MessageView {
    pub message_id: u128,
    pub topic_id: u128,
    pub user_id: u128,
    pub content: Seq<char>,
    pub sent_at: i64,
}

impl View for Message {
    type V = MessageView;

    open spec fn view(&self) -> MessageView {
        MessageView {
            message_id: self.message_id,
            topic_id: self.topic_id,
            user_id: self.user_id,
            content: self.content@,
            sent_at: self.sent_at,
        }
    }
}

impl Clone for Message {
    fn clone(&self) -> (copy: Message)
        ensures
            copy@ == self@,
    {
        Message {
            message_id: self.message_id,
            topic_id: self.topic_id,
            user_id: self.user_id,
            content: self.content.clone(),
            sent_at: self.sent_at,
        }
    }
}

} // verus!
