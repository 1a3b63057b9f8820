//! The receive handle of an endpoint.

use std::sync::mpsc::{
    IntoIter, Iter, Receiver, RecvError, RecvTimeoutError, TryIter, TryRecvError,
};
use std::time::Duration;
use vstd::prelude::*;

verus! {

/// The handle from which an endpoint reads the payloads that the dispatcher
/// forwarded to it. Its queue carries payloads only: the dispatcher is the
/// only writer and strips the message tag before it forwards.
#[derive(Debug)]
#[verifier::reject_recursive_types(T)]
pub struct BroadcastReceiver<T> {
    receiver: Receiver<T>,
}

impl<T> BroadcastReceiver<T> {
    /// The receiving end of the endpoint's delivery queue, which this handle
    /// reads.
    pub closed spec fn queue(&self) -> Receiver<T> {
        self.receiver
    }

    /// The handle that reads the queue `inner`.
    pub(crate) fn new(inner: Receiver<T>) -> (handle: BroadcastReceiver<T>)
        ensures
            handle.queue() == inner,
    {
        Self { receiver: inner }
    }

    /// The oldest forwarded payload, without waiting: what `Receiver::try_recv`
    /// returns on this handle's queue.
    pub fn try_recv(&self) -> (received: Result<T, TryRecvError>)
        ensures
            call_ensures(Receiver::<T>::try_recv, (&self.queue(),), received),
    {
        self.receiver.try_recv()
    }

    /// The oldest forwarded payload, waiting for one to arrive: what
    /// `Receiver::recv` returns on this handle's queue.
    pub fn recv(&self) -> (received: Result<T, RecvError>)
        ensures
            call_ensures(Receiver::<T>::recv, (&self.queue(),), received),
    {
        self.receiver.recv()
    }

    /// The oldest forwarded payload, waiting no longer than `timeout`: what
    /// `Receiver::recv_timeout` returns on this handle's queue for `timeout`.
    pub fn recv_timeout(&self, timeout: Duration) -> (received: Result<T, RecvTimeoutError>)
        ensures
            call_ensures(Receiver::<T>::recv_timeout, (&self.queue(), timeout), received),
    {
        self.receiver.recv_timeout(timeout)
    }

    /// The forwarded payloads one by one, waiting for each, until the
    /// dispatcher's end of the queue is gone: the iterator that
    /// `Receiver::iter` returns on this handle's queue.
    pub fn iter(&self) -> (payloads: Iter<'_, T>)
        ensures
            call_ensures(Receiver::<T>::iter, (&self.queue(),), payloads),
    {
        self.receiver.iter()
    }

    /// The payloads that are pending now, without waiting: the iterator that
    /// `Receiver::try_iter` returns on this handle's queue.
    pub fn try_iter(&self) -> (payloads: TryIter<'_, T>)
        ensures
            call_ensures(Receiver::<T>::try_iter, (&self.queue(),), payloads),
    {
        self.receiver.try_iter()
    }
}

impl<'a, T> IntoIterator for &'a BroadcastReceiver<T> {
    type Item = T;

    type IntoIter = Iter<'a, T>;

    /// The same iterator as [`BroadcastReceiver::iter`] gives.
    fn into_iter(self) -> (payloads: Iter<'a, T>)
        ensures
            call_ensures(Receiver::<T>::iter, (&self.queue(),), payloads),
    {
        self.iter()
    }
}

impl<T> IntoIterator for BroadcastReceiver<T> {
    type Item = T;

    type IntoIter = IntoIter<T>;

    /// The iterator that the queue's own `into_iter` gives: it waits for
    /// each payload and ends when the dispatcher's end of the queue is gone.
    fn into_iter(self) -> (payloads: IntoIter<T>) {
        self.receiver.into_iter()
    }
}

} // verus!
