//! Topic-based live message distribution for a chat backend.
//!
//! Messages are stored first and distributed after. The registry holds one
//! distribution channel for each topic and gives every subscriber a queue of
//! its own on it; a publish puts one copy of the message on the queue of each
//! subscriber of the topic, so that every reader sees every message, in the
//! order of publishing, however slowly another reader takes its own.
//!
//! The library decides and keeps the state; it does no I/O and does not
//! wait. Its owner talks to the store and to the readers, and shares the
//! registry between its threads under a lock of its own.
//!
//! - [`registry`]: the topic registry, with publish, subscribe, unsubscribe
//!   and receive.
//! - [`session`]: the state machine of one live reader.
//! - [`publish`]: the path of a write request, from its validation to its
//!   distribution.
//! - [`wire`]: the frame that carries a message to a reader.
//! - [`history`]: reads of stored messages.
//! - [`accounts`]: new users.
//! - [`ident`]: identifiers as text.
//! - [`queue`]: the queue of one subscriber.
//! - [`model`]: users, topics and messages.
//! - [`config`]: settings at startup.
//! - [`laws`]: what holds of every registry.

pub mod accounts;
pub mod config;
pub mod history;
pub mod ident;
pub mod laws;
pub mod model;
pub mod publish;
pub mod queue;
pub mod registry;
pub mod session;
pub mod wire;
