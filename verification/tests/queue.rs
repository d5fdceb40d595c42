use topic_chat::model::Message;
use topic_chat::queue::SubscriberQueue;

fn queued(content: &str, sent_at: i64) -> Message {
    Message {
        message_id: 1,
        topic_id: 2,
        user_id: 3,
        content: content.to_string(),
        sent_at,
    }
}

#[test]
fn queue_hands_messages_out_oldest_first() {
    let mut queue = SubscriberQueue::new();
    assert!(queue.pop().is_none());
    queue.push(queued("first", 10));
    queue.push(queued("second", 20));
    assert_eq!(queue.pop(), Some(queued("first", 10)));
    assert_eq!(queue.pop(), Some(queued("second", 20)));
    assert_eq!(queue.pop(), None);
}

#[test]
fn queue_counts_what_waits() {
    let mut queue = SubscriberQueue::new();
    assert_eq!(queue.len(), 0);
    queue.push(queued("a", 1));
    queue.push(queued("b", 2));
    queue.push(queued("c", 3));
    assert_eq!(queue.len(), 3);
    queue.pop();
    assert_eq!(queue.len(), 2);
}

#[test]
fn queue_takes_the_same_message_twice() {
    let mut queue = SubscriberQueue::new();
    queue.push(queued("again", 5));
    queue.push(queued("again", 5));
    assert_eq!(queue.len(), 2);
    assert_eq!(queue.pop(), Some(queued("again", 5)));
    assert_eq!(queue.pop(), Some(queued("again", 5)));
    assert_eq!(queue.pop(), None);
}

#[test]
fn a_copy_of_a_message_equals_it() {
    let message = queued("copy me", 77);
    let copy = message.clone();
    assert_eq!(copy, message);
    assert_eq!(copy.content, "copy me");
    assert_eq!(copy.sent_at, 77);
}
