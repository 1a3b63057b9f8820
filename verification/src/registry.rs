//! The registry of endpoints and the dispatch algorithm.

use crate::handler::{BroadcastMessage, IndividualSettings};
use crate::model::{acted_on, cycle_calls, cycle_made, fan_out, handed_out, handed_to};
use crate::model::{is_target, polled_from, run, step, target_count};
use crate::model::{EndpointView, Polled, POLL_LIMIT};
use crate::receiver::BroadcastReceiver;
use crate::sender::BroadcastSender;
use std::sync::mpsc::{channel, Receiver, Sender, TryRecvError};
use vstd::prelude::*;

verus! {

/// The dispatcher's side of one endpoint: the end of the queue that the
/// endpoint's send handle fills, the end of the queue that its receive handle
/// drains, and the endpoint's settings.
#[verifier::reject_recursive_types(T)]
struct InternalChannel<T> {
    sender: Sender<T>,
    receiver: Receiver<BroadcastMessage<T>>,
    setting: IndividualSettings,
    /// The payloads handed to `sender` so far, oldest first.
    delivered: Ghost<Seq<T>>,
}

impl<T> View for InternalChannel<T> {
    type V = EndpointView<T>;

    closed spec fn view(&self) -> EndpointView<T> {
        EndpointView {
            send_to_self: self.setting.send_to_self,
            delivered: self.delivered@,
            inbound: self.receiver,
            outbound: self.sender,
        }
    }
}

/// Whether a registration with `setting` led from the registry `before` to
/// the registry `after` and gave `handles`: one endpoint was added behind all
/// others, with `setting` and nothing forwarded to it yet, and two channels
/// were made for it. The send handle and the new endpoint hold the two ends of
/// one, the new endpoint and the receive handle the two ends of the other.
pub open spec fn registered<T>(
    before: Seq<EndpointView<T>>,
    after: Seq<EndpointView<T>>,
    setting: IndividualSettings,
    handles: (BroadcastSender<T>, BroadcastReceiver<T>),
) -> bool {
    let endpoint = after.last();
    &&& after == before.push(endpoint)
    &&& endpoint == EndpointView::fresh(setting, endpoint.inbound, endpoint.outbound)
    &&& call_ensures(channel::<BroadcastMessage<T>>, (), (handles.0.queue(), endpoint.inbound))
    &&& call_ensures(channel::<T>, (), (endpoint.outbound, handles.1.queue()))
}

impl<T> InternalChannel<T> {
    /// Looks, without waiting, for the oldest message of the endpoint.
    fn poll(&self) -> (polled: Polled<T>)
        ensures
            polled_from(self@.inbound, polled),
    {
        match self.receiver.try_recv() {
            Ok(message) => Polled::Message(message),
            Err(TryRecvError::Empty) => Polled::Empty,
            Err(TryRecvError::Disconnected) => Polled::Closed,
        }
    }
}

impl<T: Clone> InternalChannel<T> {
    /// Forwards `value`, which is `payload` or a clone of it, to the endpoint:
    /// hands it to the endpoint's queue and notes the payload. Where the
    /// endpoint's receive handle is gone the value is dropped.
    fn deliver(&mut self, value: T, Ghost(payload): Ghost<T>)
        requires
            cloned(payload, value),
        ensures
            final(self)@ == old(self)@.with_delivery(payload),
            handed_to(old(self)@.outbound, payload),
    {
        let sent = self.sender.send(value);
        proof {
            assert(call_ensures(Sender::<T>::send, (&self.sender, value), sent));
            self.delivered@ = self.delivered@.push(payload);
        }
    }
}

/// The registered endpoints, in the order of their registration.
#[verifier::reject_recursive_types(T)]
pub struct Registry<T> {
    channels: Vec<InternalChannel<T>>,
}

impl<T> View for Registry<T> {
    type V = Seq<EndpointView<T>>;

    closed spec fn view(&self) -> Seq<EndpointView<T>> {
        self.channels@.map_values(|channel: InternalChannel<T>| channel@)
    }
}

impl<T> Registry<T> {
    /// The view is taken endpoint by endpoint.
    proof fn view_by_endpoint(&self)
        ensures
            self@.len() == self.channels@.len(),
            forall|k: int| 0 <= k < self.channels@.len() ==> self@[k] == (#[trigger] self.channels@[k])@,
    {
    }

    /// A registry without endpoints.
    pub fn new() -> (registry: Self)
        ensures
            registry@ == Seq::<EndpointView<T>>::empty(),
    {
        let registry = Registry { channels: Vec::new() };
        assert(registry@ =~= Seq::<EndpointView<T>>::empty());
        registry
    }

    /// The number of registered endpoints.
    pub fn len(&self) -> (len: usize)
        ensures
            len == self@.len(),
    {
        self.channels.len()
    }

    /// Whether no endpoint is registered.
    pub fn is_empty(&self) -> (empty: bool)
        ensures
            empty == (self@.len() == 0),
    {
        self.channels.len() == 0
    }

    /// Looks, without waiting, for the oldest pending message of the endpoint
    /// at `cursor`: makes one `try_recv` on that endpoint's queue and tells
    /// what it returned. Which of the outcomes that is depends on what the
    /// endpoint's send handles did.
    pub fn poll(&self, cursor: usize) -> (polled: Polled<T>)
        requires
            cursor < self@.len(),
        ensures
            polled_from(self@[cursor as int].inbound, polled),
    {
        proof {
            self.view_by_endpoint();
        }
        self.channels[cursor].poll()
    }

    /// Registers an endpoint with `setting` behind all others and returns its
    /// two handles. Nothing has been forwarded to it yet. Two channels are
    /// made for it: the send handle and the registry hold the two ends of one,
    /// the registry and the receive handle the two ends of the other. The
    /// endpoints registered before are left as they are.
    pub fn register(&mut self, setting: IndividualSettings) -> (handles: (
        BroadcastSender<T>,
        BroadcastReceiver<T>,
    ))
        ensures
            registered(old(self)@, final(self)@, setting, handles),
    {
        let (broadcast_sender, individual_receiver) = channel::<T>();
        let (individual_sender, broadcast_receiver) = channel::<BroadcastMessage<T>>();
        let internal_channel = InternalChannel {
            sender: broadcast_sender,
            receiver: broadcast_receiver,
            setting,
            delivered: Ghost(Seq::empty()),
        };
        let ghost endpoint = internal_channel@;
        self.channels.push(internal_channel);
        let handles = (
            BroadcastSender::new(individual_sender),
            BroadcastReceiver::new(individual_receiver),
        );
        proof {
            self.view_by_endpoint();
            assert(self@ =~= old(self)@.push(endpoint));
            assert(self@.last() == endpoint);
        }
        handles
    }
}

impl<T: Clone> Registry<T> {
    /// Forwards `value`, sent by the endpoint at `sender`, to every other
    /// endpoint, and to the sender too where it has self-delivery on. Each
    /// target but the last gets a clone and the last gets `value` itself.
    /// Returns whether there was any target.
    pub fn broadcast(&mut self, sender: usize, value: T) -> (forwarded: bool)
        requires
            sender < old(self)@.len(),
        ensures
            final(self)@ == fan_out(old(self)@, sender as int, value),
            handed_out(old(self)@, sender as int, value),
            forwarded == (target_count(old(self)@, sender as int) > 0),
    {
        proof {
            self.view_by_endpoint();
        }
        let len: usize = self.channels.len();
        let send_to_self: bool = self.channels[sender].setting.send_to_self;
        if len == 1 && !send_to_self {
            assert(self@ =~= fan_out(self@, sender as int, value));
            return false;
        }
        let last: usize = if sender == len - 1 && !send_to_self {
            len - 2
        } else {
            len - 1
        };
        let mut j: usize = 0;
        while j < last
            invariant
                j <= last < len,
                len == self.channels.len(),
                len == old(self)@.len(),
                sender < len,
                send_to_self == old(self)@[sender as int].send_to_self,
                is_target(old(self)@, sender as int, last as int),
                forall|k: int|
                    0 <= k < j && is_target(old(self)@, sender as int, k) ==> handed_to(
                        (#[trigger] old(self)@[k]).outbound,
                        value,
                    ),
                forall|k: int|
                    0 <= k < len ==> (#[trigger] self.channels@[k])@ == if k < j && is_target(
                        old(self)@,
                        sender as int,
                        k,
                    ) {
                        old(self)@[k].with_delivery(value)
                    } else {
                        old(self)@[k]
                    },
            decreases last - j,
        {
            if j != sender || send_to_self {
                let copy = value.clone();
                self.channels[j].deliver(copy, Ghost(value));
            }
            j = j + 1;
        }
        self.channels[last].deliver(value, Ghost(value));
        proof {
            self.view_by_endpoint();
            assert(self@ =~= fan_out(old(self)@, sender as int, value));
        }
        true
    }

    /// Acts on what the poll of the endpoint at `cursor` found, and returns
    /// the position of the endpoint to poll next.
    ///
    /// An empty queue moves on to the next endpoint. A closed queue removes
    /// the endpoint from the registry. A control message changes the
    /// endpoint's own self-delivery setting. A value is forwarded as
    /// [`Registry::broadcast`] says; with `advance_after_delivery`, a value
    /// that had a target moves on to the next endpoint.
    pub fn dispatch(&mut self, cursor: usize, polled: Polled<T>, advance_after_delivery: bool) -> (next:
        usize)
        requires
            cursor < old(self)@.len(),
        ensures
            (final(self)@, next as int) == step(
                old(self)@,
                cursor as int,
                polled,
                advance_after_delivery,
            ),
            acted_on(old(self)@, cursor as int, polled),
    {
        proof {
            self.view_by_endpoint();
        }
        let len: usize = self.channels.len();
        assert(cursor < len);
        match polled {
            Polled::Empty => cursor + 1,
            Polled::Closed => {
                let _ = self.channels.remove(cursor);
                proof {
                    self.view_by_endpoint();
                    assert(self@ =~= old(self)@.remove(cursor as int));
                }
                cursor
            },
            Polled::Message(BroadcastMessage::ChangeSendToSelf(flag)) => {
                self.channels[cursor].setting.send_to_self = flag;
                proof {
                    self.view_by_endpoint();
                    assert(self@ =~= old(self)@.update(
                        cursor as int,
                        old(self)@[cursor as int].with_send_to_self(flag),
                    ));
                }
                cursor
            },
            Polled::Message(BroadcastMessage::Value(value)) => {
                let forwarded = self.broadcast(cursor, value);
                if forwarded && advance_after_delivery {
                    cursor + 1
                } else {
                    cursor
                }
            },
        }
    }

    /// Runs one dispatch cycle: polls the endpoints from the first on, acts on
    /// each poll as [`Registry::dispatch`] says, and ends when the cursor has
    /// passed the last endpoint, or after [`POLL_LIMIT`] polls.
    ///
    /// What the polls find depends on the endpoints, so the contract speaks of
    /// the sequence of polls that were made: each was a poll of the queue of
    /// the endpoint under the cursor, each polled value was handed to the
    /// queues of its targets, and the registry is left as those polls, handled
    /// in order, leave it.
    pub fn run_cycle(&mut self, advance_after_delivery: bool)
        ensures
            exists|polls: Seq<Polled<T>>| #[trigger]
                cycle_made(old(self)@, polls, advance_after_delivery, final(self)@),
    {
        let mut cursor: usize = 0;
        let mut budget: u64 = POLL_LIMIT;
        let ghost mut polls: Seq<Polled<T>> = Seq::empty();
        while cursor < self.channels.len() && budget > 0
            invariant
                polls.len() + budget == POLL_LIMIT,
                cycle_calls(old(self)@, polls, advance_after_delivery),
                run(old(self)@, polls, advance_after_delivery) == (self@, cursor as int),
            decreases budget,
        {
            proof {
                self.view_by_endpoint();
            }
            let polled = self.poll(cursor);
            proof {
                assert(polls.push(polled).drop_last() =~= polls);
                polls = polls.push(polled);
            }
            cursor = self.dispatch(cursor, polled, advance_after_delivery);
            budget = budget - 1;
        }
        proof {
            self.view_by_endpoint();
            assert(cycle_made(old(self)@, polls, advance_after_delivery, self@));
        }
    }
}

} // verus!
