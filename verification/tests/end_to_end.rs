use topic_chat::history::{structure_messages, MessageRow};
use topic_chat::model::{Message, Topic, User};
use topic_chat::publish::{accept, PostMessageRequest, StoreFailure, WriteOutcome};
use topic_chat::registry::TopicRegistry;
use topic_chat::session::{SessionAction, SessionEvent, SessionState};

fn id(text: &str) -> u128 {
    uuid::Uuid::parse_str(text).unwrap().as_u128()
}

fn now_micros() -> i64 {
    chrono::Utc::now().naive_utc().and_utc().timestamp_micros()
}

fn seeded_topics() -> Vec<Topic> {
    vec![
        Topic {
            topic_id: id("b1074c65-6006-4858-a8b0-f6ff98b7fe03"),
            name: "Cooking".to_string(),
            description: "Topic for cooking".to_string(),
        },
        Topic {
            topic_id: id("9e1c2867-2ccb-4cef-9066-3b0c96a2d06a"),
            name: "Cars".to_string(),
            description: "Topic about racing".to_string(),
        },
        Topic {
            topic_id: id("f8e3f824-634a-483f-955f-86c998149cab"),
            name: "Anime".to_string(),
            description: "Anime is life".to_string(),
        },
    ]
}

/// A store in memory: it assigns the identifier and the time of a message and
/// answers a history read newest first.
struct Store {
    topics: Vec<Topic>,
    users: Vec<User>,
    messages: Vec<Message>,
}

impl Store {
    fn seeded() -> Store {
        Store { topics: seeded_topics(), users: Vec::new(), messages: Vec::new() }
    }

    fn topic_ids(&self) -> Vec<u128> {
        self.topics.iter().map(|topic| topic.topic_id).collect()
    }

    fn find(&self, topic_id: u128, user_id: u128) -> Result<(bool, bool), StoreFailure> {
        Ok((
            self.topics.iter().any(|topic| topic.topic_id == topic_id),
            self.users.iter().any(|user| user.user_id == user_id),
        ))
    }

    fn insert(&mut self, topic_id: u128, user_id: u128, content: &str) -> Result<Message, StoreFailure> {
        let message = Message {
            message_id: self.messages.len() as u128 + 1,
            topic_id,
            user_id,
            content: content.to_string(),
            sent_at: now_micros(),
        };
        self.messages.push(message.clone());
        Ok(message)
    }

    fn history(&self, topic_id: u128, limit: usize) -> Vec<MessageRow> {
        let mut rows: Vec<MessageRow> = self
            .messages
            .iter()
            .filter(|message| message.topic_id == topic_id)
            .map(|message| MessageRow {
                message_id: message.message_id,
                username: self
                    .users
                    .iter()
                    .find(|user| user.user_id == message.user_id)
                    .unwrap()
                    .username
                    .clone(),
                content: message.content.clone(),
                sent_at: message.sent_at,
                topic_id: message.topic_id,
                user_id: message.user_id,
            })
            .collect();
        rows.sort_by(|a, b| b.sent_at.cmp(&a.sent_at));
        rows.truncate(limit);
        rows
    }
}

fn post(store: &mut Store, registry: &mut TopicRegistry, request: PostMessageRequest) -> WriteOutcome {
    let lookup = match accept(request) {
        Ok(lookup) => lookup,
        Err(error) => return WriteOutcome::Rejected(error),
    };
    let found = store.find(lookup.topic_id(), lookup.user_id());
    let insert = match lookup.answered(found) {
        Ok(insert) => insert,
        Err(error) => return WriteOutcome::Rejected(error),
    };
    let record = store.insert(insert.topic_id(), insert.user_id(), insert.content());
    insert.stored(registry, record)
}

#[test]
fn a_posted_message_reaches_the_reader_and_the_history() {
    let mut store = Store::seeded();
    let author = topic_chat::accounts::new_user();
    store.users.push(author.clone());
    let mut registry = TopicRegistry::initialize(&store.topic_ids());
    let topic = id("b1074c65-6006-4858-a8b0-f6ff98b7fe03");

    let (reader, action) = SessionState::start().step(
        &mut registry,
        SessionEvent::Connect("b1074c65-6006-4858-a8b0-f6ff98b7fe03".to_string()),
    );
    assert_eq!(action, SessionAction::Wait);

    let started = now_micros();
    let outcome = post(
        &mut store,
        &mut registry,
        PostMessageRequest { user_id: author.user_id, topic_id: topic, message: "hello".to_string() },
    );
    assert_eq!(outcome, WriteOutcome::Created);

    let (reader, action) = reader.step(&mut registry, SessionEvent::Wake);
    assert!(matches!(reader, SessionState::Streaming(_)));
    let frame = match action {
        SessionAction::Forward(frame) => frame,
        other => panic!("no frame: {:?}", other),
    };
    let value: serde_json::Value = serde_json::from_str(&frame).unwrap();
    assert_eq!(value["content"].as_str().unwrap(), "hello");
    let sent_at: chrono::NaiveDateTime = value["sent_at"].as_str().unwrap().parse().unwrap();
    assert!(sent_at.and_utc().timestamp_micros() >= started);
    assert_eq!(id(value["topic_id"].as_str().unwrap()), topic);
    assert_eq!(id(value["user_id"].as_str().unwrap()), author.user_id);

    let history = structure_messages(&store.history(topic, 1));
    assert_eq!(history.len(), 1);
    assert_eq!(history[0].content, "hello");
    assert_eq!(history[0].user.username, author.username);
    assert_eq!(history[0].sent_at, sent_at.and_utc().timestamp_micros());
    assert_eq!(id(value["message_id"].as_str().unwrap()), history[0].message_id);
}

#[test]
fn the_seeded_topics_are_the_topics_of_the_registry() {
    let store = Store::seeded();
    let registry = TopicRegistry::initialize(&store.topic_ids());
    for topic in seeded_topics() {
        assert!(registry.knows(topic.topic_id));
        assert_eq!(registry.subscriber_count(topic.topic_id), Some(0));
    }
    assert!(!registry.knows(0));
    assert_eq!(seeded_topics(), store.topics);
}

#[test]
fn a_post_by_an_unknown_user_is_stored_nowhere() {
    let mut store = Store::seeded();
    let mut registry = TopicRegistry::initialize(&store.topic_ids());
    let topic = id("b1074c65-6006-4858-a8b0-f6ff98b7fe03");
    let reader = registry.subscribe(topic).unwrap();
    let outcome = post(
        &mut store,
        &mut registry,
        PostMessageRequest { user_id: 77, topic_id: topic, message: "test message".to_string() },
    );
    assert_eq!(outcome, WriteOutcome::Rejected(topic_chat::publish::WriteError::UnknownUser));
    assert!(store.messages.is_empty());
    assert_eq!(registry.receive(&reader), None);
}

#[test]
fn the_newest_post_is_the_first_of_the_history() {
    let mut store = Store::seeded();
    let author = topic_chat::accounts::new_user();
    store.users.push(author.clone());
    let mut registry = TopicRegistry::initialize(&store.topic_ids());
    let topic = id("b1074c65-6006-4858-a8b0-f6ff98b7fe03");
    for text in ["first", "test message"] {
        let outcome = post(
            &mut store,
            &mut registry,
            PostMessageRequest { user_id: author.user_id, topic_id: topic, message: text.to_string() },
        );
        assert_eq!(outcome, WriteOutcome::Created);
        store.messages.last_mut().unwrap().sent_at += store.messages.len() as i64;
    }
    let history = structure_messages(&store.history(topic, 1));
    assert_eq!(history.len(), 1);
    assert_eq!(history[0].content, "test message");
    assert_eq!(history[0].user.username, author.username);
}
