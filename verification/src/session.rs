//! The streaming session of one live reader, as a state machine.
//!
//! The session decides; its owner does the waiting and the sending. The owner
//! hands in what happened as an event and gets back what to do next: wait for
//! the next event, forward one frame to the reader, or stop. A session that
//! is closed has given its subscription back, and stays closed.

use vstd::prelude::*;
use crate::ident::{parsed_uuid, uuid_from_text};
use crate::registry::{
    drained, joined, next_slot, released, SubscriptionHandle, TopicRegistry,
};
use crate::wire::{encode_record, record_text};

verus! {

/// Why a session is closed.
#[derive(Debug, PartialEq, Eq)]
pub enum CloseReason {
    /// The reader went away or the server shuts down.
    Cancelled,
    /// The topic identifier that the reader gave spells no identifier.
    MalformedTopic,
    /// The registry does not hold the topic.
    UnknownTopic,
    /// A frame could not be written to the reader.
    Transport,
    /// A message could not be put into a frame.
    Encoding,
}

/// Where a session stands.
#[derive(Debug, PartialEq, Eq)]
pub enum SessionState {
    /// The reader has not named its topic yet.
    Connecting,
    /// The reader is subscribed; the handle names its subscription.
    Streaming(SubscriptionHandle),
    /// The end: no subscription is held any more.
    Closed(CloseReason),
}

/// What happened outside the session.
#[derive(Debug, PartialEq, Eq)]
pub enum SessionEvent {
    /// The reader asked for the topic with this identifier.
    Connect(String),
    /// A message may wait for the reader.
    Wake,
    /// The reader went away or the server shuts down.
    Cancel,
    /// Writing to the reader failed.
    TransportFailed,
}

/// What the owner of the session does next.
#[derive(Debug, PartialEq, Eq)]
pub enum SessionAction {
    /// Wait for the next event.
    Wait,
    /// Send this frame to the reader, then come back with `Wake`, or with
    /// `TransportFailed` where the frame could not be sent.
    Forward(String),
    /// Stop: the session is closed.
    Stop,
}

impl SessionState {
    /// The state of a new session.
    pub fn start() -> (state: SessionState)
        ensures
            state == SessionState::Connecting,
    {
        SessionState::Connecting
    }

    /// Whether the session is closed.
    pub fn is_closed(&self) -> (closed: bool)
        ensures
            closed == (self is Closed),
    {
        match self {
            SessionState::Closed(_) => true,
            _ => false,
        }
    }

    /// The first step of a session, for a topic identifier that was read
    /// already: a subscription on the topic where the registry holds it, and
    /// the end of the session where it does not, or where `topic_id` is
    /// `None` because the text spelled no identifier.
    pub fn connect(registry: &mut TopicRegistry, topic_id: Option<u128>) -> (next: (
        SessionState,
        SessionAction,
    ))
        ensures
            match topic_id {
                None => {
                    &&& next.0 == SessionState::Closed(CloseReason::MalformedTopic)
                    &&& next.1 is Stop
                    &&& final(registry)@ == old(registry)@
                },
                Some(id) => if old(registry)@.contains_key(id) {
                    &&& next.0 matches SessionState::Streaming(handle)
                    &&& handle.topic() == id
                    &&& next_slot(old(registry)@[id], handle.slot())
                    &&& final(registry)@ == joined(old(registry)@, id, handle.slot())
                    &&& next.1 is Wait
                } else {
                    &&& next.0 == SessionState::Closed(CloseReason::UnknownTopic)
                    &&& next.1 is Stop
                    &&& final(registry)@ == old(registry)@
                },
            },
    {
        match topic_id {
            None => (SessionState::Closed(CloseReason::MalformedTopic), SessionAction::Stop),
            Some(id) => match registry.subscribe(id) {
                Ok(handle) => (SessionState::Streaming(handle), SessionAction::Wait),
                Err(_) => (SessionState::Closed(CloseReason::UnknownTopic), SessionAction::Stop),
            },
        }
    }

    /// The step after a message was taken for the reader, for a frame that
    /// was made already: the frame goes to the reader, and where there is
    /// none, because the message has no wire form, the session ends and gives
    /// its subscription back.
    pub fn forward(
        handle: SubscriptionHandle,
        registry: &mut TopicRegistry,
        frame: Option<String>,
    ) -> (next: (SessionState, SessionAction))
        ensures
            match frame {
                Some(text) => {
                    &&& next.0 == SessionState::Streaming(handle)
                    &&& next.1 == SessionAction::Forward(text)
                    &&& final(registry)@ == old(registry)@
                },
                None => {
                    &&& next.0 == SessionState::Closed(CloseReason::Encoding)
                    &&& next.1 is Stop
                    &&& final(registry)@ == released(
                        old(registry)@,
                        handle.topic(),
                        handle.slot(),
                    )
                },
            },
    {
        match frame {
            Some(text) => (SessionState::Streaming(handle), SessionAction::Forward(text)),
            None => {
                registry.unsubscribe(handle);
                (SessionState::Closed(CloseReason::Encoding), SessionAction::Stop)
            },
        }
    }

    /// One step of the session: from where it stands and what happened to
    /// where it stands next and what its owner does.
    ///
    /// While connecting, `Connect` subscribes the reader. While streaming,
    /// `Wake` takes the oldest message that waits and forwards its frame, or
    /// waits where nothing does; `Cancel` and `TransportFailed` end the
    /// session, and the subscription is given back in the same step. A closed
    /// session answers every event with `Stop` and touches nothing.
    pub fn step(self, registry: &mut TopicRegistry, event: SessionEvent) -> (next: (
        SessionState,
        SessionAction,
    ))
        ensures
            match (self, event) {
                (SessionState::Connecting, SessionEvent::Connect(text)) => match parsed_uuid(
                    text@,
                ) {
                    None => {
                        &&& next.0 == SessionState::Closed(CloseReason::MalformedTopic)
                        &&& next.1 is Stop
                        &&& final(registry)@ == old(registry)@
                    },
                    Some(id) => if old(registry)@.contains_key(id) {
                        &&& next.0 matches SessionState::Streaming(handle)
                        &&& handle.topic() == id
                        &&& next_slot(old(registry)@[id], handle.slot())
                        &&& final(registry)@ == joined(old(registry)@, id, handle.slot())
                        &&& next.1 is Wait
                    } else {
                        &&& next.0 == SessionState::Closed(CloseReason::UnknownTopic)
                        &&& next.1 is Stop
                        &&& final(registry)@ == old(registry)@
                    },
                },
                (SessionState::Connecting, SessionEvent::Wake) => {
                    &&& next.0 == SessionState::Connecting
                    &&& next.1 is Wait
                    &&& final(registry)@ == old(registry)@
                },
                (SessionState::Connecting, SessionEvent::Cancel) => {
                    &&& next.0 == SessionState::Closed(CloseReason::Cancelled)
                    &&& next.1 is Stop
                    &&& final(registry)@ == old(registry)@
                },
                (SessionState::Connecting, SessionEvent::TransportFailed) => {
                    &&& next.0 == SessionState::Closed(CloseReason::Transport)
                    &&& next.1 is Stop
                    &&& final(registry)@ == old(registry)@
                },
                (SessionState::Streaming(handle), SessionEvent::Connect(_)) => {
                    &&& next.0 == SessionState::Streaming(handle)
                    &&& next.1 is Wait
                    &&& final(registry)@ == old(registry)@
                },
                (SessionState::Streaming(handle), SessionEvent::Wake) => if old(registry).holds(
                    handle,
                ) && old(registry).backlog(handle).len() > 0 {
                    let taken = drained(old(registry)@, handle.topic(), handle.slot());
                    match record_text(old(registry).backlog(handle)[0]) {
                        Some(text) => {
                            &&& next.0 == SessionState::Streaming(handle)
                            &&& next.1 matches SessionAction::Forward(frame)
                            &&& frame@ == text
                            &&& final(registry)@ == taken
                        },
                        None => {
                            &&& next.0 == SessionState::Closed(CloseReason::Encoding)
                            &&& next.1 is Stop
                            &&& final(registry)@ == released(
                                taken,
                                handle.topic(),
                                handle.slot(),
                            )
                        },
                    }
                } else {
                    &&& next.0 == SessionState::Streaming(handle)
                    &&& next.1 is Wait
                    &&& final(registry)@ == old(registry)@
                },
                (SessionState::Streaming(handle), SessionEvent::Cancel) => {
                    &&& next.0 == SessionState::Closed(CloseReason::Cancelled)
                    &&& next.1 is Stop
                    &&& final(registry)@ == released(
                        old(registry)@,
                        handle.topic(),
                        handle.slot(),
                    )
                },
                (SessionState::Streaming(handle), SessionEvent::TransportFailed) => {
                    &&& next.0 == SessionState::Closed(CloseReason::Transport)
                    &&& next.1 is Stop
                    &&& final(registry)@ == released(
                        old(registry)@,
                        handle.topic(),
                        handle.slot(),
                    )
                },
                (SessionState::Closed(reason), _) => {
                    &&& next.0 == SessionState::Closed(reason)
                    &&& next.1 is Stop
                    &&& final(registry)@ == old(registry)@
                },
            },
    {
        match self {
            SessionState::Connecting => match event {
                SessionEvent::Connect(text) => {
                    let topic_id = uuid_from_text(text.as_str());
                    SessionState::connect(registry, topic_id)
                },
                SessionEvent::Wake => (SessionState::Connecting, SessionAction::Wait),
                SessionEvent::Cancel => (
                    SessionState::Closed(CloseReason::Cancelled),
                    SessionAction::Stop,
                ),
                SessionEvent::TransportFailed => (
                    SessionState::Closed(CloseReason::Transport),
                    SessionAction::Stop,
                ),
            },
            SessionState::Streaming(handle) => match event {
                SessionEvent::Connect(_) => (SessionState::Streaming(handle), SessionAction::Wait),
                SessionEvent::Wake => match registry.receive(&handle) {
                    Some(message) => {
                        let frame = encode_record(&message);
                        SessionState::forward(handle, registry, frame)
                    },
                    None => (SessionState::Streaming(handle), SessionAction::Wait),
                },
                SessionEvent::Cancel => {
                    registry.unsubscribe(handle);
                    (SessionState::Closed(CloseReason::Cancelled), SessionAction::Stop)
                },
                SessionEvent::TransportFailed => {
                    registry.unsubscribe(handle);
                    (SessionState::Closed(CloseReason::Transport), SessionAction::Stop)
                },
            },
            SessionState::Closed(reason) => (SessionState::Closed(reason), SessionAction::Stop),
        }
    }
}

} // verus!
