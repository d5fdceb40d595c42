//! The topic registry: one distribution channel per topic, built once from
//! the store's list of topics, with publish and subscribe on it.
//!
//! A channel is a row of slots. A subscriber holds one slot and has a queue of
//! its own there; a slot that nobody holds is free and is given to the next
//! subscriber. The queues are unbounded: a reader that falls behind delays
//! nobody, and what waits for it is what it has not taken yet.

use vstd::prelude::*;
use std::collections::HashMap;
use crate::model::{Message, MessageView};
use crate::queue::SubscriberQueue;

verus! {

broadcast use vstd::std_specs::hash::group_hash_axioms;

/// What waits for one subscriber, oldest first.
pub type Backlog = Seq<MessageView>;

/// A channel in contracts: for each slot, the backlog of the subscriber that
/// holds it, or `None` where the slot is free.
pub type Channel = Seq<Option<Backlog>>;

/// The channel after `message` was delivered to every subscriber on it.
pub open spec fn fan_out(channel: Channel, message: MessageView) -> Channel {
    Seq::new(
        channel.len(),
        |i: int|
            match channel[i] {
                Some(backlog) => Some(backlog.push(message)),
                None => None,
            },
    )
}

/// The number of subscribers on a channel.
pub open spec fn subscribers(channel: Channel) -> nat
    decreases channel.len(),
{
    if channel.len() == 0 {
        0
    } else {
        subscribers(channel.drop_last()) + if channel.last() is Some {
            1nat
        } else {
            0nat
        }
    }
}

/// Whether `slot` is the slot that the next subscriber gets: the first free
/// one, or a new one behind the others where none is free.
pub open spec fn next_slot(channel: Channel, slot: int) -> bool {
    &&& 0 <= slot <= channel.len()
    &&& forall|j: int| 0 <= j < slot ==> (#[trigger] channel[j]) is Some
    &&& slot < channel.len() ==> channel[slot] is None
}

/// The channel after a new subscriber, for whom nothing waits yet, took `slot`.
pub open spec fn occupy(channel: Channel, slot: int) -> Channel {
    if slot < channel.len() {
        channel.update(slot, Some(Seq::<MessageView>::empty()))
    } else {
        channel.push(Some(Seq::<MessageView>::empty()))
    }
}

/// The registry in contracts: the channel of each topic that it was built with.
pub type Channels = Map<u128, Channel>;

/// Whether a subscriber holds `slot` on the channel of `topic_id`.
pub open spec fn live(channels: Channels, topic_id: u128, slot: int) -> bool {
    &&& channels.contains_key(topic_id)
    &&& 0 <= slot < channels[topic_id].len()
    &&& channels[topic_id][slot] is Some
}

/// The registry after `message` was published to `topic_id`: fanned out on
/// that topic's channel, and nothing at all where the topic is unknown.
pub open spec fn published(channels: Channels, topic_id: u128, message: MessageView) -> Channels {
    if channels.contains_key(topic_id) {
        channels.insert(topic_id, fan_out(channels[topic_id], message))
    } else {
        channels
    }
}

/// The registry after a new subscriber took `slot` on the channel of
/// `topic_id`.
pub open spec fn joined(channels: Channels, topic_id: u128, slot: int) -> Channels {
    channels.insert(topic_id, occupy(channels[topic_id], slot))
}

/// The registry after the subscriber on `slot` of `topic_id` left: the slot
/// is free, and nothing changes where no subscriber held it.
pub open spec fn released(channels: Channels, topic_id: u128, slot: int) -> Channels {
    if live(channels, topic_id, slot) {
        channels.insert(topic_id, channels[topic_id].update(slot, None))
    } else {
        channels
    }
}

/// The registry after the subscriber on `slot` of `topic_id` took the oldest
/// message that waited for it.
pub open spec fn drained(channels: Channels, topic_id: u128, slot: int) -> Channels {
    channels.insert(
        topic_id,
        channels[topic_id].update(slot, Some(channels[topic_id][slot]->0.drop_first())),
    )
}

/// The answer to an identifier that the registry does not hold.
#[derive(Debug, PartialEq, Eq)]
pub struct NotFound;

/// Names one subscription: the topic and the slot held on its channel.
#[derive(Debug, PartialEq, Eq)]
pub struct SubscriptionHandle {
    topic_id: u128,
    slot: usize,
}

impl SubscriptionHandle {
    /// The topic subscribed to, in contracts.
    pub closed spec fn topic(&self) -> u128 {
        self.topic_id
    }

    /// The slot held, in contracts.
    pub closed spec fn slot(&self) -> int {
        self.slot as int
    }

    /// The topic subscribed to.
    pub fn topic_id(&self) -> (id: u128)
        ensures
            id == self.topic(),
    {
        self.topic_id
    }
}

/// What a row of queues is in contracts.
pub closed spec fn channel_view(slots: Seq<Option<SubscriberQueue>>) -> Channel {
    Seq::new(
        slots.len(),
        |i: int|
            match slots[i] {
                Some(queue) => Some(queue@),
                None => None,
            },
    )
}

/// The process-wide map from topic to distribution channel.
pub struct TopicRegistry {
    channels: HashMap<u128, Vec<Option<SubscriberQueue>>>,
}

impl View for TopicRegistry {
    type V = Channels;

    closed spec fn view(&self) -> Channels {
        Map::new(
            |t: u128| self.channels@.contains_key(t),
            |t: u128| channel_view(self.channels@[t]@),
        )
    }
}

impl TopicRegistry {
    /// Whether `handle` names a subscription that is live in this registry.
    pub open spec fn holds(&self, handle: SubscriptionHandle) -> bool {
        live(self@, handle.topic(), handle.slot())
    }

    /// What waits for the subscriber that `handle` names.
    pub open spec fn backlog(&self, handle: SubscriptionHandle) -> Backlog
        recommends
            self.holds(handle),
    {
        self@[handle.topic()][handle.slot()]->0
    }

    /// Builds the registry from the store's list of topic identifiers: one
    /// empty channel for each. An identifier listed twice counts once.
    pub fn initialize(topic_ids: &Vec<u128>) -> (registry: TopicRegistry)
        ensures
            registry@.dom() == topic_ids@.to_set(),
            forall|t: u128| #[trigger]
                registry@.contains_key(t) ==> registry@[t] == Seq::<Option<Backlog>>::empty(),
    {
        let mut channels: HashMap<u128, Vec<Option<SubscriberQueue>>> = HashMap::new();
        let mut i: usize = 0;
        while i < topic_ids.len()
            invariant
                0 <= i <= topic_ids.len(),
                channels@.dom() == topic_ids@.take(i as int).to_set(),
                forall|t: u128| #[trigger]
                    channels@.contains_key(t) ==> channels@[t]@ == Seq::<
                        Option<SubscriberQueue>,
                    >::empty(),
            decreases topic_ids.len() - i,
        {
            let slots: Vec<Option<SubscriberQueue>> = Vec::new();
            channels.insert(topic_ids[i], slots);
            proof {
                let before = topic_ids@.take(i as int);
                assert(topic_ids@.take(i + 1) == before.push(topic_ids@[i as int]));
                before.lemma_push_to_set_commute(topic_ids@[i as int]);
            }
            i += 1;
        }
        proof {
            assert(topic_ids@.take(i as int) == topic_ids@);
        }
        let registry = TopicRegistry { channels };
        proof {
            assert(registry@.dom() =~= channels@.dom());
            assert forall|t: u128| #[trigger] registry@.contains_key(t) implies registry@[t]
                == Seq::<Option<Backlog>>::empty() by {
                assert(registry@[t] =~= Seq::<Option<Backlog>>::empty());
            }
        }
        registry
    }

    /// Delivers `message` to every subscriber that is on the channel of
    /// `topic_id` now: each gets one copy, behind what already waits for it.
    /// For an identifier that the registry does not hold nothing changes.
    pub fn publish(&mut self, topic_id: u128, message: Message) -> (result: Result<(), NotFound>)
        ensures
            result is Ok <==> old(self)@.contains_key(topic_id),
            final(self)@ == published(old(self)@, topic_id, message@),
    {
        match self.channels.remove(&topic_id) {
            None => {
                proof {
                    assert(final(self)@ =~= old(self)@);
                }
                Err(NotFound)
            },
            Some(mut slots) => {
                let ghost before = slots@;
                let mut i: usize = 0;
                while i < slots.len()
                    invariant
                        0 <= i <= slots.len(),
                        slots@.len() == before.len(),
                        forall|j: int|
                            0 <= j < i ==> match #[trigger] before[j] {
                                Some(queue) => slots@[j] is Some && slots@[j]->0@ == queue@.push(
                                    message@,
                                ),
                                None => slots@[j] is None,
                            },
                        forall|j: int| i <= j < slots.len() ==> #[trigger] slots@[j] == before[j],
                    decreases slots.len() - i,
                {
                    match &mut slots[i] {
                        Some(queue) => {
                            queue.push(message.clone());
                        },
                        None => {},
                    }
                    i += 1;
                }
                proof {
                    assert(channel_view(slots@) =~= fan_out(channel_view(before), message@));
                }
                self.channels.insert(topic_id, slots);
                proof {
                    assert(final(self)@ =~= old(self)@.insert(
                        topic_id,
                        fan_out(old(self)@[topic_id], message@),
                    ));
                }
                Ok(())
            },
        }
    }

    /// Registers a new subscriber on the channel of `topic_id` and returns the
    /// handle that names it. Nothing waits for it yet: it will see what is
    /// published from now on. For an identifier that the registry does not
    /// hold nothing changes.
    pub fn subscribe(&mut self, topic_id: u128) -> (result: Result<SubscriptionHandle, NotFound>)
        ensures
            result is Ok <==> old(self)@.contains_key(topic_id),
            result is Err ==> final(self)@ == old(self)@,
            result matches Ok(handle) ==> {
                &&& handle.topic() == topic_id
                &&& next_slot(old(self)@[topic_id], handle.slot())
                &&& final(self)@ == joined(old(self)@, topic_id, handle.slot())
            },
    {
        match self.channels.remove(&topic_id) {
            None => {
                proof {
                    assert(final(self)@ =~= old(self)@);
                }
                Err(NotFound)
            },
            Some(mut slots) => {
                let ghost before = slots@;
                let mut slot: usize = 0;
                while slot < slots.len() && slots[slot].is_some()
                    invariant
                        0 <= slot <= slots.len(),
                        slots@ == before,
                        forall|j: int| 0 <= j < slot ==> (#[trigger] before[j]) is Some,
                    decreases slots.len() - slot,
                {
                    slot += 1;
                }
                if slot < slots.len() {
                    slots.set(slot, Some(SubscriberQueue::new()));
                } else {
                    slots.push(Some(SubscriberQueue::new()));
                }
                proof {
                    assert(next_slot(channel_view(before), slot as int)) by {
                        assert forall|j: int| 0 <= j < slot implies (#[trigger] channel_view(
                            before,
                        )[j]) is Some by {
                            assert(before[j] is Some);
                        }
                    }
                    assert(channel_view(slots@) =~= occupy(channel_view(before), slot as int));
                }
                self.channels.insert(topic_id, slots);
                proof {
                    assert(final(self)@ =~= old(self)@.insert(
                        topic_id,
                        occupy(old(self)@[topic_id], slot as int),
                    ));
                }
                Ok(SubscriptionHandle { topic_id, slot })
            },
        }
    }

    /// Releases the subscription that `handle` names: its queue is dropped
    /// with what still waited in it, and its slot is free again. A handle
    /// that names no live subscription changes nothing.
    pub fn unsubscribe(&mut self, handle: SubscriptionHandle)
        ensures
            final(self)@ == released(old(self)@, handle.topic(), handle.slot()),
    {
        match self.channels.remove(&handle.topic_id) {
            None => {
                proof {
                    assert(final(self)@ =~= old(self)@);
                }
            },
            Some(mut slots) => {
                let ghost before = slots@;
                if handle.slot < slots.len() {
                    slots.set(handle.slot, None);
                }
                proof {
                    if handle.slot < before.len() {
                        assert(channel_view(slots@) =~= channel_view(before).update(
                            handle.slot as int,
                            None,
                        ));
                        if before[handle.slot as int] is None {
                            assert(channel_view(slots@) =~= channel_view(before));
                        }
                    }
                }
                self.channels.insert(handle.topic_id, slots);
                proof {
                    if old(self).holds(handle) {
                        assert(final(self)@ =~= old(self)@.insert(
                            handle.topic(),
                            old(self)@[handle.topic()].update(handle.slot(), None),
                        ));
                    } else {
                        assert(final(self)@ =~= old(self)@);
                    }
                }
            },
        }
    }

    /// Takes the next message that waits for the subscriber that `handle`
    /// names: the oldest one. Where nothing waits, or the handle names no
    /// live subscription, the answer is `None` and nothing changes.
    pub fn receive(&mut self, handle: &SubscriptionHandle) -> (taken: Option<Message>)
        ensures
            taken is Some <==> old(self).holds(*handle) && old(self).backlog(*handle).len() > 0,
            taken is None ==> final(self)@ == old(self)@,
            taken matches Some(message) ==> {
                &&& message@ == old(self).backlog(*handle)[0]
                &&& final(self)@ == drained(old(self)@, handle.topic(), handle.slot())
            },
    {
        match self.channels.remove(&handle.topic_id) {
            None => {
                proof {
                    assert(final(self)@ =~= old(self)@);
                }
                None
            },
            Some(mut slots) => {
                let ghost before = slots@;
                let mut taken: Option<Message> = None;
                if handle.slot < slots.len() {
                    match &mut slots[handle.slot] {
                        Some(queue) => {
                            taken = queue.pop();
                        },
                        None => {},
                    }
                }
                proof {
                    if taken is Some {
                        assert(channel_view(slots@) =~= channel_view(before).update(
                            handle.slot as int,
                            Some(channel_view(before)[handle.slot as int]->0.drop_first()),
                        ));
                    } else {
                        assert(channel_view(slots@) =~= channel_view(before));
                    }
                }
                self.channels.insert(handle.topic_id, slots);
                proof {
                    if taken is Some {
                        assert(final(self)@ =~= old(self)@.insert(
                            handle.topic(),
                            old(self)@[handle.topic()].update(
                                handle.slot(),
                                Some(old(self).backlog(*handle).drop_first()),
                            ),
                        ));
                    } else {
                        assert(final(self)@ =~= old(self)@);
                    }
                }
                taken
            },
        }
    }

    /// The number of subscribers on the channel of `topic_id`, or `None` for
    /// an identifier that the registry does not hold.
    pub fn subscriber_count(&self, topic_id: u128) -> (count: Option<usize>)
        ensures
            count is Some <==> self@.contains_key(topic_id),
            count matches Some(n) ==> n == subscribers(self@[topic_id]),
    {
        match self.channels.get(&topic_id) {
            None => None,
            Some(slots) => {
                let mut count: usize = 0;
                let mut i: usize = 0;
                while i < slots.len()
                    invariant
                        0 <= i <= slots.len(),
                        count <= i,
                        count == subscribers(channel_view(slots@.take(i as int))),
                    decreases slots.len() - i,
                {
                    proof {
                        let shorter = channel_view(slots@.take(i as int));
                        let longer = channel_view(slots@.take(i + 1));
                        assert(longer.drop_last() =~= shorter);
                        assert(longer.last() is Some <==> slots@[i as int] is Some);
                    }
                    if slots[i].is_some() {
                        count += 1;
                    }
                    i += 1;
                }
                proof {
                    assert(slots@.take(i as int) == slots@);
                }
                Some(count)
            },
        }
    }

    /// The number of messages that wait for the subscriber that `handle`
    /// names, or `None` where it names no live subscription. The queues have
    /// no bound; this is what the owner of a reader watches to end one that
    /// falls too far behind.
    pub fn backlog_len(&self, handle: &SubscriptionHandle) -> (count: Option<usize>)
        ensures
            count is Some <==> self.holds(*handle),
            count matches Some(n) ==> n == self.backlog(*handle).len(),
    {
        match self.channels.get(&handle.topic_id) {
            None => None,
            Some(slots) => {
                if handle.slot < slots.len() {
                    match &slots[handle.slot] {
                        Some(queue) => Some(queue.len()),
                        None => None,
                    }
                } else {
                    None
                }
            },
        }
    }

    /// Whether `topic_id` is one of the topics that the registry was built with.
    pub fn knows(&self, topic_id: u128) -> (known: bool)
        ensures
            known == self@.contains_key(topic_id),
    {
        self.channels.contains_key(&topic_id)
    }
}

} // verus!
