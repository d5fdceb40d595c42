//! One subscriber's private delivery queue, kept in an unbounded channel of
//! the `crossbeam` crate.
//!
//! A queue owns both ends of its channel and hands out neither, so nothing
//! but the queue's own methods puts a message in or takes one out.

use vstd::prelude::*;
use crate::model::{Message, MessageView};

verus! {

/// `crossbeam::channel::Sender`, the sending end of a channel: carried as it
/// is, with nothing known of what is inside.
#[verifier::external_type_specification]
#[verifier::external_body]
#[verifier::reject_recursive_types(T)]
pub struct ExSender<T>(crossbeam::channel::Sender<T>);

/// `crossbeam::channel::Receiver`, the receiving end of a channel: carried as
/// it is, with nothing known of what is inside.
#[verifier::external_type_specification]
#[verifier::external_body]
#[verifier::reject_recursive_types(T)]
pub struct ExReceiver<T>(crossbeam::channel::Receiver<T>);

/// The messages that wait in the channel behind a receiving end of
/// `crossbeam`, oldest first.
pub uninterp spec fn waiting(rx: crossbeam::channel::Receiver<Message>) -> Seq<MessageView>;

/// Whether `tx` is the sending end of the channel that `rx` receives from:
/// the two came out of one call of `crossbeam::channel::unbounded`.
pub uninterp spec fn feeds(
    tx: crossbeam::channel::Sender<Message>,
    rx: crossbeam::channel::Receiver<Message>,
) -> bool;

/// `crossbeam::channel::unbounded`: the two ends of a new channel, in which
/// nothing waits.
#[verifier::external_body]
fn open_channel() -> (ends: (
    crossbeam::channel::Sender<Message>,
    crossbeam::channel::Receiver<Message>,
))
    ensures
        feeds(ends.0, ends.1),
        waiting(ends.1) == Seq::<MessageView>::empty(),
{
    crossbeam::channel::unbounded()
}

/// `Sender::send` on an unbounded channel: the message is put behind those
/// that wait. The call fails only where every receiving end is gone, and the
/// receiving end is at hand here: it is borrowed, mutably because the call
/// changes what it will hand out. The call does not wait and does not panic.
#[verifier::external_body]
fn channel_send(
    tx: &crossbeam::channel::Sender<Message>,
    rx: &mut crossbeam::channel::Receiver<Message>,
    message: Message,
)
    requires
        feeds(*tx, *old(rx)),
    ensures
        feeds(*tx, *final(rx)),
        waiting(*final(rx)) == waiting(*old(rx)).push(message@),
    no_unwind
{
    let _ = tx.send(message);
}

/// `Receiver::try_recv`: the oldest waiting message leaves the channel and is
/// returned; where nothing waits the call returns at once with nothing. The
/// sending end is named so that the contract can say that the ends stay
/// paired. The call does not panic.
#[verifier::external_body]
fn channel_take(
    tx: &crossbeam::channel::Sender<Message>,
    rx: &mut crossbeam::channel::Receiver<Message>,
) -> (taken: Option<Message>)
    requires
        feeds(*tx, *old(rx)),
    ensures
        feeds(*tx, *final(rx)),
        waiting(*old(rx)).len() == 0 ==> taken is None && waiting(*final(rx)) == waiting(*old(rx)),
        waiting(*old(rx)).len() > 0 ==> taken is Some && taken->0@ == waiting(*old(rx))[0]
            && waiting(*final(rx)) == waiting(*old(rx)).drop_first(),
    no_unwind
{
    rx.try_recv().ok()
}

/// `Receiver::len`: the number of messages that wait in the channel.
#[verifier::external_body]
fn channel_len(rx: &crossbeam::channel::Receiver<Message>) -> (count: usize)
    ensures
        count == waiting(*rx).len(),
{
    rx.len()
}

/// The private queue of one subscriber. It has no bound: a message can
/// always be put in.
pub struct SubscriberQueue {
    tx: crossbeam::channel::Sender<Message>,
    rx: crossbeam::channel::Receiver<Message>,
}

impl View for SubscriberQueue {
    type V = Seq<MessageView>;

    /// The messages delivered to this subscriber and not yet taken, oldest
    /// first.
    closed spec fn view(&self) -> Seq<MessageView> {
        waiting(self.rx)
    }
}

impl SubscriberQueue {
    #[verifier::type_invariant]
    spec fn paired(self) -> bool {
        feeds(self.tx, self.rx)
    }

    /// A queue in which nothing waits.
    pub fn new() -> (queue: SubscriberQueue)
        ensures
            queue@ == Seq::<MessageView>::empty(),
    {
        let (tx, rx) = open_channel();
        SubscriberQueue { tx, rx }
    }

    /// The number of messages that wait.
    pub fn len(&self) -> (count: usize)
        ensures
            count == self@.len(),
    {
        channel_len(&self.rx)
    }

    /// Puts `message` behind the messages that wait.
    pub fn push(&mut self, message: Message)
        ensures
            final(self)@ == old(self)@.push(message@),
    {
        proof {
            use_type_invariant(&*self);
        }
        channel_send(&self.tx, &mut self.rx, message);
    }

    /// Takes the oldest message that waits, if there is one.
    pub fn pop(&mut self) -> (taken: Option<Message>)
        ensures
            old(self)@.len() == 0 ==> taken is None && final(self)@ == old(self)@,
            old(self)@.len() > 0 ==> taken is Some && taken->0@ == old(self)@[0] && final(self)@
                == old(self)@.drop_first(),
    {
        proof {
            use_type_invariant(&*self);
        }
        channel_take(&self.tx, &mut self.rx)
    }
}

} // verus!
