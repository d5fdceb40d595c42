//! The publish path: from a write request to a message that is stored first
//! and distributed after.
//!
//! The path decides; its owner talks to the store. A request is accepted or
//! rejected on its own; an accepted one names what to look up in the store;
//! the store's answer leads on to the insert or rejects the request; the
//! store's record of the insert is what is published. Each stage is a value
//! that only the stage before it hands out, so a message cannot be
//! published before it was stored.

use vstd::prelude::*;
use crate::model::{Message, MessageView};
use crate::registry::{published, TopicRegistry};

verus! {

/// What a writer sends: who writes, to which topic, and the text.
#[derive(Debug, PartialEq, Eq)]
pub struct PostMessageRequest {
    pub user_id: u128,
    pub topic_id: u128,
    pub message: String,
}

/// What a `PostMessageRequest` is in contracts.
pub struct PostMessageRequestView {
    pub user_id: u128,
    pub topic_id: u128,
    pub message: Seq<char>,
}

impl View for PostMessageRequest {
    type V = PostMessageRequestView;

    open spec fn view(&self) -> PostMessageRequestView {
        PostMessageRequestView {
            user_id: self.user_id,
            topic_id: self.topic_id,
            message: self.message@,
        }
    }
}

/// The store could not be reached, or refused the operation.
#[derive(Debug, PartialEq, Eq)]
pub struct StoreFailure;

/// Why a write was rejected.
#[derive(Debug, PartialEq, Eq)]
pub enum WriteError {
    /// The request is not valid: its text is empty.
    EmptyContent,
    /// The store has no topic with the identifier of the request.
    UnknownTopic,
    /// The store has no user with the identifier of the request.
    UnknownUser,
    /// The store failed; nothing was published.
    Persistence,
}

/// How a write ended.
#[derive(Debug, PartialEq, Eq)]
pub enum WriteOutcome {
    /// The message is stored and was handed to the subscribers of its topic.
    Created,
    /// The message is stored, but the registry does not hold its topic: it
    /// can be read from the history only. A warning, not a failure.
    CreatedUndelivered,
    /// Nothing was stored and nothing published.
    Rejected(WriteError),
}

/// A valid request, waiting for the store to say whether its topic and its
/// user exist.
#[derive(Debug, PartialEq, Eq)]
pub struct Lookup {
    request: PostMessageRequest,
}

/// A request whose topic and user exist, waiting for the store to insert it.
#[derive(Debug, PartialEq, Eq)]
pub struct Insert {
    request: PostMessageRequest,
}

/// Takes a request in: one with an empty text is rejected at once, before
/// the store or the registry is asked anything.
pub fn accept(request: PostMessageRequest) -> (result: Result<Lookup, WriteError>)
    ensures
        request.message@.len() == 0 ==> result == Err::<Lookup, WriteError>(
            WriteError::EmptyContent,
        ),
        request.message@.len() > 0 ==> result is Ok && result->Ok_0@ == request@,
{
    if request.message.as_str().is_empty() {
        Err(WriteError::EmptyContent)
    } else {
        Ok(Lookup { request })
    }
}

impl View for Lookup {
    type V = PostMessageRequestView;

    closed spec fn view(&self) -> PostMessageRequestView {
        self.request@
    }
}

impl Lookup {
    /// The topic to look up.
    pub fn topic_id(&self) -> (id: u128)
        ensures
            id == self@.topic_id,
    {
        self.request.topic_id
    }

    /// The user to look up.
    pub fn user_id(&self) -> (id: u128)
        ensures
            id == self@.user_id,
    {
        self.request.user_id
    }

    /// Takes the store's answer: whether the topic exists and whether the
    /// user exists. A missing topic is reported before a missing user.
    pub fn answered(self, found: Result<(bool, bool), StoreFailure>) -> (result: Result<
        Insert,
        WriteError,
    >)
        ensures
            match found {
                Err(_) => result == Err::<Insert, WriteError>(WriteError::Persistence),
                Ok((topic_found, user_found)) => if !topic_found {
                    result == Err::<Insert, WriteError>(WriteError::UnknownTopic)
                } else if !user_found {
                    result == Err::<Insert, WriteError>(WriteError::UnknownUser)
                } else {
                    result is Ok && result->Ok_0@ == self@
                },
            },
    {
        match found {
            Err(_) => Err(WriteError::Persistence),
            Ok((topic_found, user_found)) => {
                if !topic_found {
                    Err(WriteError::UnknownTopic)
                } else if !user_found {
                    Err(WriteError::UnknownUser)
                } else {
                    Ok(Insert { request: self.request })
                }
            },
        }
    }
}

impl View for Insert {
    type V = PostMessageRequestView;

    closed spec fn view(&self) -> PostMessageRequestView {
        self.request@
    }
}

impl Insert {
    /// The topic of the message to insert.
    pub fn topic_id(&self) -> (id: u128)
        ensures
            id == self@.topic_id,
    {
        self.request.topic_id
    }

    /// The author of the message to insert.
    pub fn user_id(&self) -> (id: u128)
        ensures
            id == self@.user_id,
    {
        self.request.user_id
    }

    /// The text of the message to insert.
    pub fn content(&self) -> (text: &String)
        ensures
            text@ == self@.message,
    {
        &self.request.message
    }

    /// Takes the store's record of the insert and publishes it to the topic
    /// of the request. Where the store failed nothing is published. Where
    /// the registry does not hold the topic the write still succeeded, and
    /// the outcome says that nobody was served.
    pub fn stored(self, registry: &mut TopicRegistry, record: Result<Message, StoreFailure>) -> (
        outcome: WriteOutcome
    )
        ensures
            match record {
                Err(_) => {
                    &&& outcome == WriteOutcome::Rejected(WriteError::Persistence)
                    &&& final(registry)@ == old(registry)@
                },
                Ok(message) => {
                    &&& final(registry)@ == published(
                        old(registry)@,
                        self@.topic_id,
                        message@,
                    )
                    &&& outcome == if old(registry)@.contains_key(self@.topic_id) {
                        WriteOutcome::Created
                    } else {
                        WriteOutcome::CreatedUndelivered
                    }
                },
            },
    {
        match record {
            Err(_) => WriteOutcome::Rejected(WriteError::Persistence),
            Ok(message) => match registry.publish(self.request.topic_id, message) {
                Ok(()) => WriteOutcome::Created,
                Err(_) => WriteOutcome::CreatedUndelivered,
            },
        }
    }
}

} // verus!
