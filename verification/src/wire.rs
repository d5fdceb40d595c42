//! The wire form of a delivered message: one JSON object per frame, with the
//! identifiers in hyphenated form, the content as a JSON string and the time
//! as an ISO 8601 date and time.

use vstd::prelude::*;
use vstd::string::StringExecFns;
use crate::ident::{hyphenated, uuid_to_text};
use crate::model::{Message, MessageView};

verus! {

/// The JSON string literal for a text, quotes included, as `serde_json`
/// writes it; `None` where it refuses.
pub uninterp spec fn json_text(text: Seq<char>) -> Option<Seq<char>>;

/// The date and time, in ISO 8601 form without a zone, at `micros`
/// microseconds after 1970-01-01T00:00:00, as `chrono` writes it; `None`
/// where the moment is outside the years that `chrono` holds.
pub uninterp spec fn time_text(micros: i64) -> Option<Seq<char>>;

/// What an optional string holds, in contracts.
pub open spec fn text_of(text: Option<String>) -> Option<Seq<char>> {
    match text {
        Some(t) => Some(t@),
        None => None,
    }
}

/// `serde_json::to_string` on a string slice: the result is a function of
/// the text alone.
#[verifier::external_body]
fn json_string(text: &str) -> (json: Option<String>)
    ensures
        text_of(json) == json_text(text@),
{
    serde_json::to_string(text).ok()
}

/// `chrono::DateTime::from_timestamp_micros`, and the `Debug` form of its
/// `naive_utc`, which is the form that `chrono` serialises a `NaiveDateTime`
/// in: the result is a function of the number alone.
#[verifier::external_body]
fn time_string(micros: i64) -> (text: Option<String>)
    ensures
        text_of(text) == time_text(micros),
{
    match chrono::DateTime::from_timestamp_micros(micros) {
        Some(at) => Some(format!("{:?}", at.naive_utc())),
        None => None,
    }
}

/// The record of one message, made of the texts of its five fields:
/// `content` stands as it is, the others between quotes.
pub open spec fn framed(
    message_id: Seq<char>,
    topic_id: Seq<char>,
    user_id: Seq<char>,
    content: Seq<char>,
    sent_at: Seq<char>,
) -> Seq<char> {
    "{\"message_id\":\""@ + message_id + "\",\"topic_id\":\""@ + topic_id + "\",\"user_id\":\""@
        + user_id + "\",\"content\":"@ + content + ",\"sent_at\":\""@ + sent_at + "\"}"@
}

/// The frame for a message, or `None` where its content or its time has no
/// text.
pub open spec fn record_text(message: MessageView) -> Option<Seq<char>> {
    match (json_text(message.content), time_text(message.sent_at)) {
        (Some(content), Some(sent_at)) => Some(
            framed(
                hyphenated(message.message_id),
                hyphenated(message.topic_id),
                hyphenated(message.user_id),
                content,
                sent_at,
            ),
        ),
        _ => None,
    }
}

/// Puts the texts of the five fields of a message together into its record.
pub fn frame_record(
    message_id: &str,
    topic_id: &str,
    user_id: &str,
    content: &str,
    sent_at: &str,
) -> (frame: String)
    ensures
        frame@ == framed(message_id@, topic_id@, user_id@, content@, sent_at@),
{
    let mut frame = String::from_str("{\"message_id\":\"");
    frame.append(message_id);
    frame.append("\",\"topic_id\":\"");
    frame.append(topic_id);
    frame.append("\",\"user_id\":\"");
    frame.append(user_id);
    frame.append("\",\"content\":");
    frame.append(content);
    frame.append(",\"sent_at\":\"");
    frame.append(sent_at);
    frame.append("\"}");
    frame
}

/// The frame that carries `message` on a stream: one complete record.
pub fn encode_record(message: &Message) -> (frame: Option<String>)
    ensures
        text_of(frame) == record_text(message@),
{
    let content = json_string(message.content.as_str());
    let sent_at = time_string(message.sent_at);
    match (content, sent_at) {
        (Some(content), Some(sent_at)) => {
            let message_id = uuid_to_text(message.message_id);
            let topic_id = uuid_to_text(message.topic_id);
            let user_id = uuid_to_text(message.user_id);
            Some(
                frame_record(
                    message_id.as_str(),
                    topic_id.as_str(),
                    user_id.as_str(),
                    content.as_str(),
                    sent_at.as_str(),
                ),
            )
        },
        _ => None,
    }
}

} // verus!
