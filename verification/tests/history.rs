use topic_chat::history::{
    structure_messages, structure_row, AuthoredMessage, HistoryQuery, MalformedTopic, MessageRow,
};
use topic_chat::model::User;

const COOKING: u128 = 0xb1074c65_6006_4858_a8b0_f6ff98b7fe03;

fn row(message_id: u128, username: &str, content: &str, sent_at: i64) -> MessageRow {
    MessageRow {
        message_id,
        username: username.to_string(),
        content: content.to_string(),
        sent_at,
        topic_id: COOKING,
        user_id: 1000 + message_id,
    }
}

#[test]
fn a_row_becomes_a_message_with_its_author() {
    let message = structure_row(&row(3, "1234", "test message", 99));
    assert_eq!(
        message,
        AuthoredMessage {
            message_id: 3,
            content: "test message".to_string(),
            sent_at: 99,
            topic_id: COOKING,
            user: User { user_id: 1003, username: "1234".to_string() },
        }
    );
}

#[test]
fn rows_become_messages_in_the_same_order() {
    let rows = vec![row(3, "c", "newest", 30), row(2, "b", "middle", 20), row(1, "a", "oldest", 10)];
    let messages = structure_messages(&rows);
    assert_eq!(messages.len(), 3);
    for (message, row) in messages.iter().zip(rows.iter()) {
        assert_eq!(message.message_id, row.message_id);
        assert_eq!(message.content, row.content);
        assert_eq!(message.sent_at, row.sent_at);
        assert_eq!(message.topic_id, row.topic_id);
        assert_eq!(message.user.user_id, row.user_id);
        assert_eq!(message.user.username, row.username);
    }
    assert!(messages.windows(2).all(|pair| pair[0].sent_at >= pair[1].sent_at));
}

#[test]
fn no_rows_give_no_messages() {
    assert!(structure_messages(&Vec::new()).is_empty());
}

#[test]
fn reading_the_same_rows_again_gives_the_same_messages() {
    let rows = vec![row(2, "b", "second", 20), row(1, "a", "first", 10)];
    assert_eq!(structure_messages(&rows), structure_messages(&rows));
}

#[test]
fn a_query_without_a_topic_asks_for_all() {
    assert_eq!(HistoryQuery::read(None, 1), Ok(HistoryQuery { topic_id: None, limit: 1 }));
    assert_eq!(HistoryQuery::about(None, 50), Ok(HistoryQuery { topic_id: None, limit: 50 }));
}

#[test]
fn a_query_with_a_topic_asks_for_that_topic() {
    assert_eq!(
        HistoryQuery::read(Some("b1074c65-6006-4858-a8b0-f6ff98b7fe03"), 10),
        Ok(HistoryQuery { topic_id: Some(COOKING), limit: 10 })
    );
    assert_eq!(
        HistoryQuery::about(Some(Some(COOKING)), 10),
        Ok(HistoryQuery { topic_id: Some(COOKING), limit: 10 })
    );
}

#[test]
fn a_query_with_a_malformed_topic_is_rejected() {
    assert_eq!(HistoryQuery::read(Some("cooking"), 10), Err(MalformedTopic));
    assert_eq!(HistoryQuery::read(Some(""), 10), Err(MalformedTopic));
    assert_eq!(HistoryQuery::about(Some(None), 10), Err(MalformedTopic));
}

#[test]
fn a_query_keeps_its_limit_as_given() {
    assert_eq!(HistoryQuery::read(None, 0), Ok(HistoryQuery { topic_id: None, limit: 0 }));
    assert_eq!(HistoryQuery::read(None, -3), Ok(HistoryQuery { topic_id: None, limit: -3 }));
    assert_eq!(
        HistoryQuery::read(None, i64::MAX),
        Ok(HistoryQuery { topic_id: None, limit: i64::MAX })
    );
}
