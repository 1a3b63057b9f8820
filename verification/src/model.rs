//! The mathematical description of the registry and of a dispatch cycle.
//!
//! The registry is seen as a sequence of endpoints. Of each endpoint the
//! description keeps its self-delivery setting, the payloads that the
//! dispatcher has forwarded to it so far, and the dispatcher's ends of its two
//! queues. A cycle is a sequence of polls, each of which finds an endpoint's
//! queue empty, closed, or holding a message; [`step`] says what one poll
//! leads to and [`run`] what the polls of a whole cycle lead to.
//!
//! What a queue returns is decided outside the library. [`polled_from`] and
//! [`handed_to`] say that a call on a queue was made; [`cycle_calls`] says it
//! of every call of a cycle.

use crate::handler::{BroadcastMessage, IndividualSettings};
use std::sync::mpsc::{Receiver, SendError, Sender, TryRecvError};
use vstd::prelude::*;

verus! {

/// What the dispatcher holds and knows of one registered endpoint.
#[verifier::reject_recursive_types(T)]
pub struct EndpointView<T> {
    /// Whether a value sent by this endpoint is delivered to it as well.
    pub send_to_self: bool,
    /// The payloads forwarded to this endpoint since it registered, oldest
    /// first. While its receive handle lives it reads them in this order; what
    /// it reads for an entry is the payload itself or a clone of it.
    pub delivered: Seq<T>,
    /// The dispatcher's end of the queue that the endpoint's send handle
    /// fills.
    pub inbound: Receiver<BroadcastMessage<T>>,
    /// The dispatcher's end of the queue that the endpoint's receive handle
    /// reads.
    pub outbound: Sender<T>,
}

impl<T> EndpointView<T> {
    /// An endpoint right after registration with `setting` and with the two
    /// queue ends `inbound` and `outbound`.
    pub open spec fn fresh(
        setting: IndividualSettings,
        inbound: Receiver<BroadcastMessage<T>>,
        outbound: Sender<T>,
    ) -> Self {
        EndpointView {
            send_to_self: setting.send_to_self,
            delivered: Seq::empty(),
            inbound,
            outbound,
        }
    }

    /// This endpoint after `value` was forwarded to it.
    pub open spec fn with_delivery(self, value: T) -> Self {
        EndpointView { delivered: self.delivered.push(value), ..self }
    }

    /// This endpoint after its self-delivery setting became `flag`.
    pub open spec fn with_send_to_self(self, flag: bool) -> Self {
        EndpointView { send_to_self: flag, ..self }
    }
}

/// What one non-blocking poll of an endpoint's queue found.
pub enum Polled<T> {
    /// Nothing is pending, and the endpoint's send handle is alive.
    Empty,
    /// Nothing is pending, and every send handle of the endpoint is gone.
    Closed,
    /// The oldest pending message.
    Message(BroadcastMessage<T>),
}

/// What a poll found, told from what the queue's `try_recv` returned: the
/// message, or which of the two reasons there was for none.
pub open spec fn polled_of<T>(found: Result<BroadcastMessage<T>, TryRecvError>) -> Polled<T> {
    match found {
        Ok(message) => Polled::Message(message),
        Err(TryRecvError::Empty) => Polled::Empty,
        Err(TryRecvError::Disconnected) => Polled::Closed,
    }
}

/// Whether `polled` is what a poll of `queue` found: `Receiver::try_recv` was
/// called on `queue`, and `polled` tells what it returned.
pub open spec fn polled_from<T>(queue: Receiver<BroadcastMessage<T>>, polled: Polled<T>) -> bool {
    exists|found: Result<BroadcastMessage<T>, TryRecvError>|
        #[trigger] call_ensures(Receiver::<BroadcastMessage<T>>::try_recv, (&queue,), found)
            && polled == polled_of(found)
}

/// Whether `payload` was handed to `queue`: `Sender::send` was called on
/// `queue` with `payload` itself or with a clone of it.
pub open spec fn handed_to<T: Clone>(queue: Sender<T>, payload: T) -> bool {
    exists|value: T, sent: Result<(), SendError<T>>|
        #[trigger] call_ensures(Sender::<T>::send, (&queue, value), sent) && cloned(payload, value)
}

/// Whether endpoint `j` receives a value sent by endpoint `sender`: every
/// other endpoint does, and the sender itself where it has self-delivery on.
pub open spec fn is_target<T>(endpoints: Seq<EndpointView<T>>, sender: int, j: int) -> bool {
    0 <= j < endpoints.len() && (j != sender || endpoints[sender].send_to_self)
}

/// How many endpoints receive a value sent by endpoint `sender`.
pub open spec fn target_count<T>(endpoints: Seq<EndpointView<T>>, sender: int) -> int {
    if endpoints[sender].send_to_self {
        endpoints.len() as int
    } else {
        endpoints.len() - 1
    }
}

/// The registry after `value`, sent by endpoint `sender`, was forwarded to
/// each of its targets.
pub open spec fn fan_out<T>(endpoints: Seq<EndpointView<T>>, sender: int, value: T) -> Seq<
    EndpointView<T>,
> {
    Seq::new(
        endpoints.len(),
        |j: int|
            if is_target(endpoints, sender, j) {
                endpoints[j].with_delivery(value)
            } else {
                endpoints[j]
            },
    )
}

/// Whether `value`, sent by endpoint `sender`, was handed to the queue of each
/// of its targets.
pub open spec fn handed_out<T: Clone>(
    endpoints: Seq<EndpointView<T>>,
    sender: int,
    value: T,
) -> bool {
    forall|j: int|
        is_target(endpoints, sender, j) ==> handed_to((#[trigger] endpoints[j]).outbound, value)
}

/// Whether what [`step`] says of a polled value was done on the queues: a
/// value was handed to the queue of each target. The other outcomes of a poll
/// call for nothing.
pub open spec fn acted_on<T: Clone>(
    endpoints: Seq<EndpointView<T>>,
    cursor: int,
    polled: Polled<T>,
) -> bool {
    polled matches Polled::Message(BroadcastMessage::Value(value)) ==> handed_out(
        endpoints,
        cursor,
        value,
    )
}

/// The registry and the cursor after the poll of endpoint `cursor` found
/// `polled`.
///
/// An empty queue moves the cursor on. A closed queue removes the endpoint, so
/// the next endpoint takes its place under the same cursor. A control message
/// changes the endpoint's own setting and a value is forwarded to the
/// endpoint's targets; after either the same endpoint is polled again, except
/// that with `advance_after_delivery` a value that reached at least one
/// target moves the cursor on.
pub open spec fn step<T>(
    endpoints: Seq<EndpointView<T>>,
    cursor: int,
    polled: Polled<T>,
    advance_after_delivery: bool,
) -> (Seq<EndpointView<T>>, int) {
    match polled {
        Polled::Empty => (endpoints, cursor + 1),
        Polled::Closed => (endpoints.remove(cursor), cursor),
        Polled::Message(BroadcastMessage::ChangeSendToSelf(flag)) => (
            endpoints.update(cursor, endpoints[cursor].with_send_to_self(flag)),
            cursor,
        ),
        Polled::Message(BroadcastMessage::Value(value)) => (
            fan_out(endpoints, cursor, value),
            if advance_after_delivery && target_count(endpoints, cursor) > 0 {
                cursor + 1
            } else {
                cursor
            },
        ),
    }
}

/// The registry and the cursor after the polls `polls` were made, in this
/// order, starting from the registry `endpoints` with the cursor at `cursor`.
/// A poll is made only while the cursor points at an endpoint; what `polls`
/// holds beyond that is ignored.
pub open spec fn run_from<T>(
    endpoints: Seq<EndpointView<T>>,
    cursor: int,
    polls: Seq<Polled<T>>,
    advance_after_delivery: bool,
) -> (Seq<EndpointView<T>>, int)
    decreases polls.len(),
{
    if polls.len() == 0 {
        (endpoints, cursor)
    } else {
        let (before, at) = run_from(endpoints, cursor, polls.drop_last(), advance_after_delivery);
        if at < before.len() {
            step(before, at, polls.last(), advance_after_delivery)
        } else {
            (before, at)
        }
    }
}

/// The registry and the cursor after a cycle that made the polls `polls`: a
/// cycle starts at the first endpoint.
pub open spec fn run<T>(
    endpoints: Seq<EndpointView<T>>,
    polls: Seq<Polled<T>>,
    advance_after_delivery: bool,
) -> (Seq<EndpointView<T>>, int) {
    run_from(endpoints, 0, polls, advance_after_delivery)
}

/// Whether the calls of a cycle that made the polls `polls` were made: each
/// poll was a poll of the queue of the endpoint that the cursor pointed at
/// when it was made, and each polled value was handed to the queues of its
/// targets as the registry stood at that moment.
pub open spec fn cycle_calls<T: Clone>(
    endpoints: Seq<EndpointView<T>>,
    polls: Seq<Polled<T>>,
    advance_after_delivery: bool,
) -> bool
    decreases polls.len(),
{
    polls.len() == 0 || {
        let (before, at) = run(endpoints, polls.drop_last(), advance_after_delivery);
        &&& cycle_calls(endpoints, polls.drop_last(), advance_after_delivery)
        &&& 0 <= at < before.len()
        &&& polled_from(before[at].inbound, polls.last())
        &&& acted_on(before, at, polls.last())
    }
}

/// The most polls that one dispatch cycle makes. Producers may refill their
/// queues as fast as the dispatcher drains them; the limit makes a cycle end
/// all the same, and leaves what is still pending to the next one.
pub const POLL_LIMIT: u64 = 0xffff_ffff_ffff_ffff;

/// Whether a cycle that made the polls `polls` led from the registry `before`
/// to the registry `after`: the calls were made on the queues, the polls lead
/// to `after`, and the cycle ended because the cursor had passed the last
/// endpoint or the poll limit was reached.
pub open spec fn cycle_made<T: Clone>(
    before: Seq<EndpointView<T>>,
    polls: Seq<Polled<T>>,
    advance_after_delivery: bool,
    after: Seq<EndpointView<T>>,
) -> bool {
    let (endpoints, cursor) = run(before, polls, advance_after_delivery);
    &&& polls.len() <= POLL_LIMIT
    &&& cycle_calls(before, polls, advance_after_delivery)
    &&& after == endpoints
    &&& cursor >= endpoints.len() || polls.len() == POLL_LIMIT
}

} // verus!
