//! The channels that carry frames, packets and call slots between the tasks
//! of a port: bounded multi-producer multi-consumer channels of `crossbeam`.
//!
//! What a channel holds changes under the hands of other tasks, so nothing
//! is claimed here about what a send or a receive returns. The code that
//! uses a channel is verified for every outcome, and each decision that
//! follows an outcome stands in a function of its own. What does not change
//! is the number of items that a channel was made to hold; for channels of
//! packets and for the pool of call slots it has a name.

use crate::client::CallSlot;
use crate::lifecycle::Timed;
use crate::packet::Packet;
use crossbeam::channel::{Receiver, RecvTimeoutError, Sender};
use std::time::Duration;
use vstd::prelude::*;

verus! {

/// How a task's run over a stream ended.
#[derive(Clone, Copy, Debug, PartialEq, Eq, Structural)]
pub enum Pumped {
    /// The budget of items is spent; the stream goes on.
    BudgetSpent,
    /// The stream that the task reads is closed and empty.
    SourceClosed,
    /// The stream that the task writes to has no reader left.
    SinkClosed,
    /// A frame came that is no packet, or a packet that has no place.
    Malformed,
}

/// Largest capacity that a channel is made with: a buffer of that many
/// items, at up to 64 bytes each, fits the address space of the machine.
pub const CHANNEL_CAPACITY_LIMIT: usize = usize::MAX / 128;

/// The sending end of a `crossbeam` channel.
#[verifier::external_type_specification]
#[verifier::external_body]
#[verifier::reject_recursive_types(T)]
pub struct ExSender<T>(Sender<T>);

/// The receiving end of a `crossbeam` channel.
#[verifier::external_type_specification]
#[verifier::external_body]
#[verifier::reject_recursive_types(T)]
pub struct ExReceiver<T>(Receiver<T>);

/// The number of packets that the channel behind `queue` was made to hold:
/// what `Sender::capacity` gives for a bounded channel. It is fixed when the
/// channel is made and is the same for every end of it.
pub uninterp spec fn packet_queue_limit(queue: Sender<Packet>) -> nat;

/// The number of call slots that the pool behind `pool` was made to hold:
/// what `Sender::capacity` gives for a bounded channel. It is fixed when the
/// channel is made and is the same for every end of it.
pub uninterp spec fn slot_pool_limit(pool: Sender<CallSlot>) -> nat;

/// `crossbeam::channel::bounded`: a new channel that holds at most
/// `capacity` items; with a capacity of zero, one in which each send waits
/// for a receive. The call panics where the capacity, rounded up to a power
/// of two and doubled, does not fit the machine word, and where a buffer of
/// that many items does not fit the address space. Capacities up to
/// `CHANNEL_CAPACITY_LIMIT` are clear of both for the items that this crate
/// sends, none of which takes more than 64 bytes. Nothing is claimed of the
/// two ends.
#[verifier::external_body]
pub(crate) fn bounded<T>(capacity: usize) -> (ends: (Sender<T>, Receiver<T>))
    requires
        capacity <= CHANNEL_CAPACITY_LIMIT,
{
    crossbeam::channel::bounded(capacity)
}

/// `crossbeam::channel::bounded` for packets: as `bounded`, and the channel
/// is made to hold `capacity` packets, which is what `Sender::capacity`
/// reports of it from then on.
#[verifier::external_body]
pub(crate) fn bounded_packets(capacity: usize) -> (ends: (Sender<Packet>, Receiver<Packet>))
    requires
        capacity <= CHANNEL_CAPACITY_LIMIT,
    ensures
        packet_queue_limit(ends.0) == capacity,
{
    crossbeam::channel::bounded(capacity)
}

/// `crossbeam::channel::bounded` for call slots: as `bounded`, and the
/// channel is made to hold `capacity` call slots, which is what
/// `Sender::capacity` reports of it from then on.
#[verifier::external_body]
pub(crate) fn bounded_slots(capacity: usize) -> (ends: (Sender<CallSlot>, Receiver<CallSlot>))
    requires
        capacity <= CHANNEL_CAPACITY_LIMIT,
    ensures
        slot_pool_limit(ends.0) == capacity,
{
    crossbeam::channel::bounded(capacity)
}

/// `Sender::send`: waits until the item is in the channel or every receiver
/// is gone. The result says whether the item went in; an item that did not
/// is dropped. Nothing is claimed of the result.
#[verifier::external_body]
pub(crate) fn send<T>(sender: &Sender<T>, item: T) -> (sent: bool) {
    sender.send(item).is_ok()
}

/// `Receiver::recv`: waits until an item comes or the channel is empty and
/// every sender is gone, which gives `None`. Nothing is claimed of the
/// result.
#[verifier::external_body]
pub(crate) fn recv<T>(receiver: &Receiver<T>) -> (item: Option<T>) {
    receiver.recv().ok()
}

/// `Receiver::recv_timeout`: as `recv`, but for at most `millis`
/// milliseconds. Nothing is claimed of the result.
#[verifier::external_body]
pub(crate) fn recv_timeout<T>(receiver: &Receiver<T>, millis: u64) -> (outcome: Timed<T>) {
    match receiver.recv_timeout(Duration::from_millis(millis)) {
        Ok(item) => Timed::Item(item),
        Err(RecvTimeoutError::Timeout) => Timed::TimedOut,
        Err(RecvTimeoutError::Disconnected) => Timed::Disconnected,
    }
}

/// What a task makes of what its source gave: an item is worked on, and a
/// source that is closed and empty ends the run.
pub open spec fn spec_taken_item<T>(item: Option<T>) -> Result<T, Pumped> {
    match item {
        Some(x) => Ok(x),
        None => Err(Pumped::SourceClosed),
    }
}

/// What a task makes of the word of its sink: an item that was taken lets
/// the run go on, and one that was not ends it.
pub open spec fn spec_after_send(taken: bool) -> Option<Pumped> {
    if taken {
        None
    } else {
        Some(Pumped::SinkClosed)
    }
}

/// What a task makes of what its source gave.
pub fn taken_item<T>(item: Option<T>) -> (r: Result<T, Pumped>)
    ensures
        r == spec_taken_item(item),
{
    match item {
        Some(x) => Ok(x),
        None => Err(Pumped::SourceClosed),
    }
}

/// What a task makes of the word of its sink: `None` lets the run go on.
pub fn after_send(taken: bool) -> (end: Option<Pumped>)
    ensures
        end == spec_after_send(taken),
{
    if taken {
        None
    } else {
        Some(Pumped::SinkClosed)
    }
}

} // verus!
