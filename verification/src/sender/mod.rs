//! The send handle of an endpoint.

use crate::handler::BroadcastMessage;
use std::sync::mpsc::{SendError, Sender};
use vstd::prelude::*;

verus! {

/// The handle through which an endpoint hands values, and changes of its own
/// settings, to the dispatcher. It may be cloned; the endpoint counts as
/// closed once every clone is gone.
#[derive(Debug)]
#[verifier::reject_recursive_types(T)]
pub struct BroadcastSender<T> {
    sender: Sender<BroadcastMessage<T>>,
}

impl<T> BroadcastSender<T> {
    /// The sending end of the endpoint's queue to the dispatcher, which this
    /// handle fills.
    pub closed spec fn queue(&self) -> Sender<BroadcastMessage<T>> {
        self.sender
    }

    /// The handle that fills the queue `inner`.
    pub(crate) fn new(inner: Sender<BroadcastMessage<T>>) -> (handle: BroadcastSender<T>)
        ensures
            handle.queue() == inner,
    {
        Self { sender: inner }
    }

    /// Queues `value` for the next dispatch cycle: returns what `Sender::send`
    /// returns for the message `Value(value)` on this handle's queue. That
    /// fails only when the dispatcher's end of the queue is gone, and then
    /// hands the message back inside the error.
    pub fn send(&self, value: T) -> (sent: Result<(), SendError<BroadcastMessage<T>>>)
        ensures
            call_ensures(
                Sender::<BroadcastMessage<T>>::send,
                (&self.queue(), BroadcastMessage::Value(value)),
                sent,
            ),
            sent is Err ==> sent->Err_0.0 == BroadcastMessage::Value(value),
    {
        self.sender.send(BroadcastMessage::Value(value))
    }

    /// Asks the dispatcher to switch this endpoint's self-delivery on or off:
    /// returns what `Sender::send` returns for the message
    /// `ChangeSendToSelf(send_to_self)` on this handle's queue. The change
    /// takes effect when a dispatch cycle reads the request: values queued
    /// before it are still forwarded under the old setting.
    pub fn set_send_to_self(&self, send_to_self: bool) -> (sent: Result<
        (),
        SendError<BroadcastMessage<T>>,
    >)
        ensures
            call_ensures(
                Sender::<BroadcastMessage<T>>::send,
                (&self.queue(), BroadcastMessage::<T>::ChangeSendToSelf(send_to_self)),
                sent,
            ),
            sent is Err ==> sent->Err_0.0 == BroadcastMessage::<T>::ChangeSendToSelf(send_to_self),
    {
        self.sender.send(BroadcastMessage::ChangeSendToSelf(send_to_self))
    }
}

impl<T> Clone for BroadcastSender<T> {
    /// Another handle that fills the same queue: it holds what `Sender::clone`
    /// returns on this handle's queue.
    fn clone(&self) -> (other: Self)
        ensures
            call_ensures(
                <Sender<BroadcastMessage<T>> as Clone>::clone,
                (&self.queue(),),
                other.queue(),
            ),
    {
        Self { sender: self.sender.clone() }
    }
}

} // verus!
