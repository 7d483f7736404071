//! The queue between the desktop bus and the display.
//!
//! Messages are taken from the bus faster than they can be shown: a
//! notification holds the display for seconds. They wait in a bounded queue
//! of the `tokio` crate. One that arrives while the queue is full is dropped,
//! so that the bus is never kept waiting.

use dbus::Message;
use tokio::sync::mpsc::error::TrySendError;
use tokio::sync::mpsc::{channel, Receiver, Sender};
use vstd::prelude::*;

verus! {

/// The sending end of a bounded queue of the `tokio` crate.
#[verifier::external_type_specification]
#[verifier::external_body]
#[verifier::reject_recursive_types(T)]
pub struct ExSender<T>(Sender<T>);

/// The receiving end of a bounded queue of the `tokio` crate.
#[verifier::external_type_specification]
#[verifier::external_body]
#[verifier::reject_recursive_types(T)]
pub struct ExReceiver<T>(Receiver<T>);

/// Number of messages that may wait to be shown.
pub const QUEUE_CAPACITY: usize = 10;

/// What became of a message that was offered to the queue.
#[derive(Clone, Copy, Debug, PartialEq, Eq)]
pub enum Admission {
    /// The message waits in the queue.
    Queued,
    /// The queue was full and the message is lost.
    Dropped,
    /// Nobody takes messages from the queue any more.
    Closed,
}

/// The number of messages for which the queue behind a sending end was
/// made: what `tokio::sync::mpsc::Sender::max_capacity` tells of it. It
/// stays the same for as long as the queue lives.
pub uninterp spec fn queue_limit(queue: Sender<Message>) -> int;

/// `tokio::sync::mpsc::channel`: the two ends of a new queue that holds up
/// to `capacity` messages. A capacity of zero is left out, and so is one
/// above an eighth of the largest number, which is more than the queue can
/// count. The contract says for how many messages the queue was made, and
/// nothing else of the ends.
#[verifier::external_body]
fn bounded(capacity: usize) -> (ends: (Sender<Message>, Receiver<Message>))
    requires
        0 < capacity <= usize::MAX / 8,
    ensures
        queue_limit(ends.0) == capacity,
{
    channel(capacity)
}

/// `tokio::sync::mpsc::Sender::try_send`: offers a message to the queue
/// without waiting, and tells which of its three outcomes came. Which one
/// comes depends on what the other end has done; nothing is stated of it.
#[verifier::external_body]
fn offer(queue: &Sender<Message>, message: Message) -> (outcome: Admission) {
    match queue.try_send(message) {
        Ok(()) => Admission::Queued,
        Err(TrySendError::Full(_)) => Admission::Dropped,
        Err(TrySendError::Closed(_)) => Admission::Closed,
    }
}

impl Admission {
    /// Whether the subscription to the bus goes on after this outcome.
    pub open spec fn spec_keeps_listening(&self) -> bool {
        !(self is Closed)
    }

    /// Whether the subscription to the bus goes on after this outcome: it
    /// does, also after a message was dropped, until nobody takes messages
    /// any more.
    #[verifier::when_used_as_spec(spec_keeps_listening)]
    pub fn keeps_listening(&self) -> (listening: bool)
        ensures
            listening == self.keeps_listening(),
    {
        match self {
            Admission::Closed => false,
            _ => true,
        }
    }
}

/// The two ends of a new queue for [`QUEUE_CAPACITY`] messages.
pub fn notification_queue() -> (ends: (Sender<Message>, Receiver<Message>))
    ensures
        queue_limit(ends.0) == 10,
{
    bounded(QUEUE_CAPACITY)
}

/// Offers a message to the queue without waiting. A message for which the
/// queue has no room is dropped.
pub fn enqueue(queue: &Sender<Message>, message: Message) -> (outcome: Admission) {
    offer(queue, message)
}

} // verus!
