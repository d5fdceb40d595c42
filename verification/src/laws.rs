//! What holds of every registry, whatever was published and whoever
//! subscribed: stated over the registry in contracts and proved here.

use vstd::prelude::*;
use crate::model::MessageView;
use crate::registry::{
    drained, fan_out, joined, live, next_slot, occupy, published, released, subscribers, Backlog,
    Channel, Channels,
};

verus! {

/// How often `message` occurs in a backlog.
pub open spec fn copies(backlog: Backlog, message: MessageView) -> nat
    decreases backlog.len(),
{
    if backlog.len() == 0 {
        0
    } else {
        copies(backlog.drop_last(), message) + if backlog.last() == message {
            1nat
        } else {
            0nat
        }
    }
}

/// The registry after each of `messages` was published to `topic_id`, in
/// their order.
pub open spec fn published_all(
    channels: Channels,
    topic_id: u128,
    messages: Seq<MessageView>,
) -> Channels
    decreases messages.len(),
{
    if messages.len() == 0 {
        channels
    } else {
        published(published_all(channels, topic_id, messages.drop_last()), topic_id, messages.last())
    }
}

proof fn fan_out_keeps_the_subscribers(channel: Channel, message: MessageView)
    ensures
        subscribers(fan_out(channel, message)) == subscribers(channel),
    decreases channel.len(),
{
    if channel.len() > 0 {
        fan_out_keeps_the_subscribers(channel.drop_last(), message);
        assert(fan_out(channel, message).drop_last() =~= fan_out(channel.drop_last(), message));
    }
}

proof fn setting_a_slot_counts(channel: Channel, slot: int, value: Option<Backlog>)
    requires
        0 <= slot < channel.len(),
    ensures
        subscribers(channel.update(slot, value)) + (if channel[slot] is Some {
            1nat
        } else {
            0nat
        }) == subscribers(channel) + (if value is Some {
            1nat
        } else {
            0nat
        }),
    decreases channel.len(),
{
    let updated = channel.update(slot, value);
    if slot == channel.len() - 1 {
        assert(updated.drop_last() =~= channel.drop_last());
    } else {
        setting_a_slot_counts(channel.drop_last(), slot, value);
        assert(updated.drop_last() =~= channel.drop_last().update(slot, value));
    }
}

/// Fan-out: one publish gives every subscriber that is on the topic exactly
/// one more copy of the message, behind all that already waited for it, and
/// the subscribers stay who they were.
pub proof fn publish_reaches_every_subscriber(
    channels: Channels,
    topic_id: u128,
    message: MessageView,
    slot: int,
)
    requires
        live(channels, topic_id, slot),
    ensures
        live(published(channels, topic_id, message), topic_id, slot),
        published(channels, topic_id, message)[topic_id][slot]->0
            == channels[topic_id][slot]->0.push(message),
        copies(published(channels, topic_id, message)[topic_id][slot]->0, message) == copies(
            channels[topic_id][slot]->0,
            message,
        ) + 1,
        subscribers(published(channels, topic_id, message)[topic_id]) == subscribers(
            channels[topic_id],
        ),
{
    let before = channels[topic_id][slot]->0;
    assert(before.push(message).drop_last() =~= before);
    fan_out_keeps_the_subscribers(channels[topic_id], message);
}

/// Order preservation: after a run of publishes to one topic, what waits for
/// a subscriber is what waited before, then the published messages in the
/// order of their publishing. `receive` hands them out from the front.
pub proof fn publishes_arrive_in_order(
    channels: Channels,
    topic_id: u128,
    messages: Seq<MessageView>,
    slot: int,
)
    requires
        live(channels, topic_id, slot),
    ensures
        live(published_all(channels, topic_id, messages), topic_id, slot),
        published_all(channels, topic_id, messages)[topic_id][slot]->0
            == channels[topic_id][slot]->0 + messages,
    decreases messages.len(),
{
    let before = channels[topic_id][slot]->0;
    if messages.len() == 0 {
        assert(before + messages =~= before);
    } else {
        publishes_arrive_in_order(channels, topic_id, messages.drop_last(), slot);
        assert((before + messages.drop_last()).push(messages.last()) =~= before + messages);
    }
}

/// No interference between topics: whatever is done on one topic, a publish,
/// a new subscriber, one that leaves or one that takes a message, the
/// channel of every other topic is as it was.
pub proof fn other_topics_are_untouched(
    channels: Channels,
    topic_id: u128,
    message: MessageView,
    slot: int,
    other: u128,
)
    requires
        other != topic_id,
    ensures
        published(channels, topic_id, message).contains_key(other) == channels.contains_key(other),
        published(channels, topic_id, message)[other] == channels[other],
        joined(channels, topic_id, slot).contains_key(other) == channels.contains_key(other),
        joined(channels, topic_id, slot)[other] == channels[other],
        released(channels, topic_id, slot).contains_key(other) == channels.contains_key(other),
        released(channels, topic_id, slot)[other] == channels[other],
        drained(channels, topic_id, slot).contains_key(other) == channels.contains_key(other),
        drained(channels, topic_id, slot)[other] == channels[other],
{
}

/// No interference between topics: publishes to two different topics give
/// the same registry in either order.
pub proof fn publishes_to_two_topics_commute(
    channels: Channels,
    first: u128,
    first_message: MessageView,
    second: u128,
    second_message: MessageView,
)
    requires
        first != second,
    ensures
        published(published(channels, first, first_message), second, second_message) == published(
            published(channels, second, second_message),
            first,
            first_message,
        ),
{
    assert(published(published(channels, first, first_message), second, second_message)
        =~= published(published(channels, second, second_message), first, first_message));
}

/// Unsubscribing frees the slot: the topic has one subscriber less, the
/// other slots are as they were, and a later publish delivers nothing there.
pub proof fn unsubscribe_frees_the_slot(
    channels: Channels,
    topic_id: u128,
    slot: int,
    message: MessageView,
)
    requires
        live(channels, topic_id, slot),
    ensures
        subscribers(released(channels, topic_id, slot)[topic_id]) == subscribers(
            channels[topic_id],
        ) - 1,
        !live(released(channels, topic_id, slot), topic_id, slot),
        !live(published(released(channels, topic_id, slot), topic_id, message), topic_id, slot),
        forall|j: int|
            0 <= j < channels[topic_id].len() && j != slot ==> #[trigger] released(
                channels,
                topic_id,
                slot,
            )[topic_id][j] == channels[topic_id][j],
{
    setting_a_slot_counts(channels[topic_id], slot, None);
}

/// A subscription lasts until it is released: a publish to any topic, a
/// new subscriber anywhere, a message taken by any subscriber and the
/// release of another subscription leave it live; and but for the publish
/// to its own topic and its own taking they leave what waits for it.
pub proof fn subscription_lasts_until_released(
    channels: Channels,
    topic_id: u128,
    slot: int,
    other_topic: u128,
    other_slot: int,
    message: MessageView,
)
    requires
        live(channels, topic_id, slot),
    ensures
        live(published(channels, other_topic, message), topic_id, slot),
        other_topic != topic_id ==> published(channels, other_topic, message)[topic_id][slot]
            == channels[topic_id][slot],
        channels.contains_key(other_topic) && next_slot(channels[other_topic], other_slot) ==> {
            &&& live(joined(channels, other_topic, other_slot), topic_id, slot)
            &&& joined(channels, other_topic, other_slot)[topic_id][slot]
                == channels[topic_id][slot]
        },
        live(channels, other_topic, other_slot) ==> live(
            drained(channels, other_topic, other_slot),
            topic_id,
            slot,
        ),
        live(channels, other_topic, other_slot) && (other_topic != topic_id || other_slot != slot)
            ==> drained(channels, other_topic, other_slot)[topic_id][slot]
            == channels[topic_id][slot],
        other_topic != topic_id || other_slot != slot ==> {
            &&& live(released(channels, other_topic, other_slot), topic_id, slot)
            &&& released(channels, other_topic, other_slot)[topic_id][slot]
                == channels[topic_id][slot]
        },
{
}

/// Taking a message takes the oldest and nothing else: what waited behind
/// it still waits, in its order, and the subscribers stay who they were.
pub proof fn taking_leaves_the_rest(channels: Channels, topic_id: u128, slot: int)
    requires
        live(channels, topic_id, slot),
        channels[topic_id][slot]->0.len() > 0,
    ensures
        live(drained(channels, topic_id, slot), topic_id, slot),
        seq![channels[topic_id][slot]->0[0]] + drained(channels, topic_id, slot)[topic_id][slot]->0
            == channels[topic_id][slot]->0,
        subscribers(drained(channels, topic_id, slot)[topic_id]) == subscribers(
            channels[topic_id],
        ),
{
    let backlog = channels[topic_id][slot]->0;
    assert(seq![backlog[0]] + backlog.drop_first() =~= backlog);
    setting_a_slot_counts(channels[topic_id], slot, Some(backlog.drop_first()));
}

/// An identifier that the registry does not hold: a publish changes nothing,
/// and there is nothing to release under it.
pub proof fn unknown_topic_changes_nothing(
    channels: Channels,
    topic_id: u128,
    message: MessageView,
    slot: int,
)
    requires
        !channels.contains_key(topic_id),
    ensures
        published(channels, topic_id, message) == channels,
        released(channels, topic_id, slot) == channels,
{
}

/// The slot of a new subscriber is determined by the channel: there is
/// exactly one next slot.
pub proof fn next_slot_is_determined(channel: Channel, one: int, other: int)
    requires
        next_slot(channel, one),
        next_slot(channel, other),
    ensures
        one == other,
{
    if one < other {
        assert(channel[one] is Some);
    } else if other < one {
        assert(channel[other] is Some);
    }
}

/// No replay: nothing waits for a new subscriber, it counts as one more on
/// its topic, and the subscribers that were there keep what waited for them.
pub proof fn new_subscriber_starts_empty(channels: Channels, topic_id: u128, slot: int)
    requires
        channels.contains_key(topic_id),
        next_slot(channels[topic_id], slot),
    ensures
        live(joined(channels, topic_id, slot), topic_id, slot),
        joined(channels, topic_id, slot)[topic_id][slot]->0 == Seq::<MessageView>::empty(),
        subscribers(joined(channels, topic_id, slot)[topic_id]) == subscribers(channels[topic_id])
            + 1,
        forall|j: int|
            0 <= j < channels[topic_id].len() && j != slot ==> #[trigger] joined(
                channels,
                topic_id,
                slot,
            )[topic_id][j] == channels[topic_id][j],
{
    let channel = channels[topic_id];
    if slot < channel.len() {
        setting_a_slot_counts(channel, slot, Some(Seq::<MessageView>::empty()));
    } else {
        assert(occupy(channel, slot).drop_last() =~= channel);
    }
}

} // verus!
