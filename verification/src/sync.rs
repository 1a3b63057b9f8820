//! The parts of `std::sync` that the library builds on.
//!
//! Nothing in this file is proved. Each item tells the verifier that a type
//! of the standard library exists, or what may be relied on after a call of
//! one of its functions. Queue contents and lock state are shared with other
//! threads, so almost nothing is promised about what a call returns.

use std::sync::mpsc::{
    IntoIter, Iter, Receiver, RecvError, RecvTimeoutError, SendError, Sender, TryIter,
    TryRecvError,
};
use std::sync::{LockResult, PoisonError, RwLock, RwLockWriteGuard};
use std::time::Duration;
use vstd::prelude::*;

verus! {

/// `std::sync::mpsc::Sender`, the sending half of a channel. Opaque.
#[verifier::external_type_specification]
#[verifier::external_body]
#[verifier::reject_recursive_types(T)]
pub struct ExSender<T>(Sender<T>);

/// `std::sync::mpsc::Receiver`, the receiving half of a channel. Opaque.
#[verifier::external_type_specification]
#[verifier::external_body]
#[verifier::reject_recursive_types(T)]
pub struct ExReceiver<T>(Receiver<T>);

/// `std::sync::mpsc::SendError`, which carries the unsent message in its
/// public field.
#[verifier::external_type_specification]
#[verifier::reject_recursive_types(T)]
pub struct ExSendError<T>(SendError<T>);

/// `std::sync::mpsc::TryRecvError`, with its variants `Empty` and
/// `Disconnected`.
#[verifier::external_type_specification]
pub struct ExTryRecvError(TryRecvError);

/// `std::sync::mpsc::RecvError`, a unit struct.
#[verifier::external_type_specification]
pub struct ExRecvError(RecvError);

/// `std::sync::mpsc::RecvTimeoutError`, with its variants `Timeout` and
/// `Disconnected`.
#[verifier::external_type_specification]
pub struct ExRecvTimeoutError(RecvTimeoutError);

/// `std::sync::mpsc::Iter`, the blocking iterator over a receiver. Opaque.
#[verifier::external_type_specification]
#[verifier::external_body]
#[verifier::reject_recursive_types(T)]
pub struct ExIter<'a, T: 'a>(Iter<'a, T>);

/// `std::sync::mpsc::TryIter`, the non-blocking iterator over a receiver.
/// Opaque.
#[verifier::external_type_specification]
#[verifier::external_body]
#[verifier::reject_recursive_types(T)]
pub struct ExTryIter<'a, T: 'a>(TryIter<'a, T>);

/// `std::sync::mpsc::IntoIter`, the blocking iterator that owns its receiver.
/// Opaque.
#[verifier::external_type_specification]
#[verifier::external_body]
#[verifier::reject_recursive_types(T)]
pub struct ExIntoIter<T>(IntoIter<T>);

/// `std::sync::RwLock`. Opaque: what it guards is shared state.
#[verifier::external_type_specification]
#[verifier::external_body]
#[verifier::reject_recursive_types(T)]
pub struct ExRwLock<T: ?Sized>(RwLock<T>);

/// `std::sync::RwLockWriteGuard`, exclusive access to what a lock guards.
/// Opaque.
#[verifier::external_type_specification]
#[verifier::external_body]
#[verifier::reject_recursive_types(T)]
pub struct ExRwLockWriteGuard<'a, T: ?Sized + 'a>(RwLockWriteGuard<'a, T>);

/// `std::sync::PoisonError`, returned when a lock's earlier holder panicked.
/// Opaque.
#[verifier::external_type_specification]
#[verifier::external_body]
#[verifier::reject_recursive_types(T)]
pub struct ExPoisonError<T>(PoisonError<T>);

/// `std::sync::mpsc::channel` creates an unbounded channel and returns its two
/// halves. Nothing is claimed about them.
pub assume_specification<T>[ std::sync::mpsc::channel::<T> ]() -> (halves: (Sender<T>, Receiver<T>));

/// `Sender::send` never blocks. It fails when the receiving half is gone, and
/// then hands the message back inside the error. That is all that is claimed:
/// success does not mean that the message will be read.
pub assume_specification<T>[ Sender::<T>::send ](sender: &Sender<T>, t: T) -> (sent: Result<
    (),
    SendError<T>,
>)
    ensures
        sent is Err ==> sent->Err_0.0 == t,
;

/// `Sender::clone` gives another sending half of the same channel. Nothing is
/// claimed about it.
pub assume_specification<T>[ <Sender<T> as Clone>::clone ](sender: &Sender<T>) -> (other: Sender<T>);

/// `Receiver::try_recv` returns a pending message, `Empty` when there is none,
/// or `Disconnected` when there is none and every sending half is gone. Which
/// of them depends on what other threads did, so nothing is claimed.
pub assume_specification<T>[ Receiver::<T>::try_recv ](receiver: &Receiver<T>) -> (polled: Result<
    T,
    TryRecvError,
>);

/// `Receiver::recv` waits for a message, and fails once the queue is empty and
/// every sending half is gone. Nothing is claimed about what it returns.
pub assume_specification<T>[ Receiver::<T>::recv ](receiver: &Receiver<T>) -> (received: Result<
    T,
    RecvError,
>);

/// `Receiver::recv_timeout` waits for a message for at most `timeout`. Nothing
/// is claimed about what it returns.
pub assume_specification<T>[ Receiver::<T>::recv_timeout ](
    receiver: &Receiver<T>,
    timeout: Duration,
) -> (received: Result<T, RecvTimeoutError>);

/// `Receiver::iter` returns an iterator that waits for each message and ends
/// when the channel hangs up. Nothing is claimed about it.
pub assume_specification<'a, T>[ Receiver::<T>::iter ](receiver: &'a Receiver<T>) -> (messages: Iter<
    'a,
    T,
>);

/// `Receiver::try_iter` returns an iterator over the pending messages that
/// never waits. Nothing is claimed about it.
pub assume_specification<'a, T>[ Receiver::<T>::try_iter ](receiver: &'a Receiver<T>) -> (messages:
    TryIter<'a, T>);


/// The receiver's `IntoIterator::into_iter` turns the receiver into an
/// iterator that waits for each message and ends when the channel hangs up.
/// Nothing is claimed about it.
pub assume_specification<T>[ <Receiver<T> as IntoIterator>::into_iter ](
    receiver: Receiver<T>,
) -> (messages: IntoIter<T>);

/// `RwLock::new` creates an unlocked lock around `t`. Nothing is claimed about
/// it: the guarded value is seen again only through a guard.
pub assume_specification<T>[ RwLock::<T>::new ](t: T) -> (lock: RwLock<T>);

/// `RwLock::write` waits for exclusive access and fails if an earlier holder
/// panicked. Nothing is claimed about which. The standard library leaves open
/// what happens when the calling thread holds the lock already; this library
/// never asks for the lock while it holds a guard.
pub assume_specification<'a, T: ?Sized>[ RwLock::<T>::write ](lock: &'a RwLock<T>) -> (access:
    LockResult<RwLockWriteGuard<'a, T>>);

/// The guard's `DerefMut::deref_mut`: the guarded value, for as long as the
/// guard is borrowed. Nothing is claimed about the value found there, nor is
/// what the caller leaves there seen by the verifier again.
#[verifier::external_body]
pub(crate) fn guarded<'a, 'b, T>(guard: &'b mut RwLockWriteGuard<'a, T>) -> (value: &'b mut T) {
    &mut **guard
}

} // verus!
