//! The queue of pending events between the producers and the flusher.
//!
//! The queue is a bounded channel of the crate `crossbeam_channel`: first in,
//! first out, with any number of producers. Other threads send to it while
//! the flusher drains it, so what it holds at a given moment is not a value
//! that a contract here could speak of: the contracts state what is handed
//! to the channel and what is done with what comes out of it.

use crate::codec::EventParams;
use crate::error::Error;
use crossbeam_channel::{Receiver, Sender};
use vstd::prelude::*;

verus! {

/// The sending end of a channel of `crossbeam_channel`.
#[verifier::external_type_specification]
#[verifier::external_body]
#[verifier::reject_recursive_types(T)]
pub struct ExSender<T>(Sender<T>);

/// The receiving end of a channel of `crossbeam_channel`.
#[verifier::external_type_specification]
#[verifier::external_body]
#[verifier::reject_recursive_types(T)]
pub struct ExReceiver<T>(Receiver<T>);

/// The end of the queue that producers hold.
pub type ChannelSender = Sender<EventParams>;

/// The end of the queue that the flusher holds.
pub type ChannelReceiver = Receiver<EventParams>;

/// Why the queue did not take an event.
#[derive(PartialEq, Eq, Structural, Copy, Clone, Debug)]
pub enum Refusal {
    /// The queue is full.
    Full,
    /// The receiving end is gone.
    Disconnected,
}

/// The capacity of the queue behind `sender`, as `Sender::capacity` gives
/// it: the number of events that the queue holds at most. It is fixed when
/// the queue is made.
pub uninterp spec fn capacity_of(sender: ChannelSender) -> Option<usize>;

/// A queue that holds up to `capacity` events.
///
/// Trusted: calls `crossbeam_channel::bounded`, which panics when the
/// capacity is too large for the queue's counters or its buffer; a slot of
/// the buffer takes at most 16 bytes. The queue that it makes has the
/// capacity that was asked for, at either end. Nothing else is stated of the
/// two ends.
#[verifier::external_body]
pub(crate) fn bounded_queue(capacity: usize) -> (ends: (ChannelSender, ChannelReceiver))
    requires
        capacity <= max_capacity(),
    ensures
        capacity_of(ends.0) == Some(capacity),
        receiver_capacity_of(ends.1) == Some(capacity),
{
    crossbeam_channel::bounded(capacity)
}

/// Sends `event`, and waits while the queue is full.
///
/// Trusted: calls `Sender::send`, which fails only when the receiving end is
/// gone, and then hands the message back.
#[verifier::external_body]
pub(crate) fn send_blocking(sender: &ChannelSender, event: EventParams) -> (sent: Result<
    (),
    EventParams,
>)
    ensures
        sent matches Err(back) ==> back == event,
{
    sender.send(event).map_err(|refused| refused.0)
}

/// Sends `event` unless the queue is full.
///
/// Trusted: calls `Sender::try_send`, which fails when the queue is full or
/// the receiving end is gone. Which of the outcomes comes is not stated.
#[verifier::external_body]
pub(crate) fn send_now(sender: &ChannelSender, event: EventParams) -> (sent: Result<(), Refusal>) {
    match sender.try_send(event) {
        Ok(()) => Ok(()),
        Err(crossbeam_channel::TrySendError::Full(_)) => Err(Refusal::Full),
        Err(crossbeam_channel::TrySendError::Disconnected(_)) => Err(Refusal::Disconnected),
    }
}

/// The number of events in the queue at this moment.
///
/// Trusted: calls `Receiver::len`. A queue with a capacity holds no more
/// events than that; nothing else is stated of the number.
#[verifier::external_body]
pub(crate) fn queued(receiver: &ChannelReceiver) -> (count: usize)
    ensures
        receiver_capacity_of(*receiver) matches Some(capacity) ==> count <= capacity,
{
    receiver.len()
}

/// Takes the oldest event from the queue, if there is one, without waiting.
///
/// Trusted: calls `Receiver::try_recv`. Nothing is stated of the event.
#[verifier::external_body]
pub(crate) fn receive_now(receiver: &ChannelReceiver) -> (event: Option<EventParams>) {
    receiver.try_recv().ok()
}

/// What the producer is told after a send that waits: the queue took the
/// event, or it is closed.
pub fn sent_or_closed(sent: Result<(), EventParams>) -> (r: Result<(), Error>)
    ensures
        sent is Ok ==> r is Ok,
        sent is Err ==> r == Err::<(), Error>(Error::ChannelClosed),
{
    match sent {
        Ok(()) => Ok(()),
        Err(_) => Err(Error::ChannelClosed),
    }
}

/// What the producer is told after a send that does not wait: the queue took
/// the event, it is full, or it is closed.
pub fn sent_or_refused(sent: Result<(), Refusal>) -> (r: Result<(), Error>)
    ensures
        sent is Ok ==> r is Ok,
        sent matches Err(refusal) ==> r == Err::<(), Error>(
            match refusal {
                Refusal::Full => Error::QueueFull,
                Refusal::Disconnected => Error::ChannelClosed,
            },
        ),
{
    match sent {
        Ok(()) => Ok(()),
        Err(Refusal::Full) => Err(Error::QueueFull),
        Err(Refusal::Disconnected) => Err(Error::ChannelClosed),
    }
}

/// Sends the events of `events` in their order, each one waiting while the
/// queue is full, and stops at the first that the queue does not take.
pub fn send_each(sender: &ChannelSender, events: &[EventParams]) -> (r: Result<(), Error>)
    ensures
        r is Ok || r == Err::<(), Error>(Error::ChannelClosed),
        events@.len() == 0 ==> r is Ok,
{
    let mut i: usize = 0;
    while i < events.len()
        invariant
            i <= events.len(),
        decreases events.len() - i,
    {
        match sent_or_closed(send_blocking(sender, events[i])) {
            Ok(()) => {},
            Err(e) => {
                return Err(e);
            },
        }
        i += 1;
    }
    Ok(())
}

/// The most that one drain takes from a queue of the capacity `capacity`:
/// what the queue can hold, and one event where it can hold none.
pub open spec fn most_taken(capacity: usize) -> usize {
    if capacity == 0 {
        1
    } else {
        capacity
    }
}

/// Takes from the queue the events that it holds at this moment, oldest
/// first, without waiting. Events that arrive meanwhile stay for the next
/// time. It tries once even where the queue holds nothing: a queue without
/// room holds nothing ever, and a producer that waits at it hands its event
/// over only to one who asks.
pub(crate) fn drain(receiver: &ChannelReceiver) -> (events: Vec<EventParams>)
    ensures
        receiver_capacity_of(*receiver) matches Some(capacity) ==> events@.len() <= most_taken(
            capacity,
        ),
{
    let count: usize = queued(receiver);
    let tries: usize = if count == 0 {
        1
    } else {
        count
    };
    let mut events: Vec<EventParams> = Vec::new();
    let mut i: usize = 0;
    while i < tries
        invariant
            i <= tries,
            events@.len() <= i,
            receiver_capacity_of(*receiver) matches Some(capacity) ==> tries <= most_taken(
                capacity,
            ),
        decreases tries - i,
    {
        match receive_now(receiver) {
            Some(event) => {
                events.push(event);
            },
            None => {
                return events;
            },
        }
        i += 1;
    }
    events
}

/// How long the flusher rests after a cycle that took `elapsed`, with
/// `interval` from the start of one cycle to the start of the next: what is
/// left of the interval, and nothing where the cycle took longer.
pub open spec fn rest(interval: u64, elapsed: u64) -> u64 {
    if elapsed >= interval {
        0
    } else {
        (interval - elapsed) as u64
    }
}

/// A cycle and the rest behind it take the interval where the cycle fits in
/// it; a cycle that takes longer is followed by the next at once, and the
/// time lost is not made up for.
pub proof fn lemma_cadence(interval: u64, elapsed: u64)
    ensures
        elapsed <= interval ==> elapsed + rest(interval, elapsed) == interval,
        elapsed > interval ==> rest(interval, elapsed) == 0,
        elapsed + rest(interval, elapsed) == if elapsed <= interval {
            interval
        } else {
            elapsed
        },
{
}

/// The time from the start of the first cycle to the end of the rest behind
/// the last, for cycles that took the times of `elapsed`, in their order.
pub open spec fn cycles_span(interval: u64, elapsed: Seq<u64>) -> int
    decreases elapsed.len(),
{
    if elapsed.len() == 0 {
        0
    } else {
        cycles_span(interval, elapsed.drop_last()) + elapsed.last() + rest(
            interval,
            elapsed.last(),
        )
    }
}

/// Cycles that each fit in the interval start an interval apart: any number
/// of them, with the rests behind them, take that number of intervals.
pub proof fn lemma_cadence_over_cycles(interval: u64, elapsed: Seq<u64>)
    requires
        forall|i: int| 0 <= i < elapsed.len() ==> elapsed[i] <= interval,
    ensures
        cycles_span(interval, elapsed) == elapsed.len() * interval,
    decreases elapsed.len(),
{
    if elapsed.len() > 0 {
        let head = elapsed.drop_last();
        assert forall|i: int| 0 <= i < head.len() implies head[i] <= interval by {
            assert(head[i] == elapsed[i]);
        }
        lemma_cadence_over_cycles(interval, head);
        lemma_cadence(interval, elapsed.last());
        assert((elapsed.len() - 1) * interval + interval == elapsed.len() * interval)
            by (nonlinear_arith);
    } else {
        assert(elapsed.len() * interval == 0) by (nonlinear_arith)
            requires
                elapsed.len() == 0,
        ;
    }
}

/// The largest capacity that a queue can be made with: more slots than that
/// would not fit in memory.
pub open spec fn max_capacity() -> usize {
    usize::MAX / 32
}

/// The capacity of the queue behind `receiver`, as `Receiver::capacity`
/// gives it.
pub uninterp spec fn receiver_capacity_of(receiver: ChannelReceiver) -> Option<usize>;

} // verus!
