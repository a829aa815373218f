//! Handles to background workers. A worker owns a piece of shared state and a
//! mailbox; its handle sends commands to the mailbox, and the worker takes
//! them out one at a time, in the order in which they were sent. Starting the
//! worker's thread is left to the caller.

use vstd::prelude::*;

use std::sync::mpsc::{Receiver, RecvError, Sender, TryRecvError};
use std::sync::Mutex;

pub mod job;
pub mod procedure;

verus! {

/// `std::sync::Mutex`. What it guards is not seen from here.
#[verifier::external_type_specification]
#[verifier::external_body]
#[verifier::reject_recursive_types(T)]
pub struct ExMutex<T: ?Sized>(Mutex<T>);

/// `std::sync::mpsc::Sender`. What waits in its channel is not seen from
/// here.
#[verifier::external_type_specification]
#[verifier::external_body]
#[verifier::reject_recursive_types(T)]
pub struct ExSender<T>(Sender<T>);

/// `std::sync::mpsc::Receiver`. What waits in its channel is not seen from
/// here.
#[verifier::external_type_specification]
#[verifier::external_body]
#[verifier::reject_recursive_types(T)]
pub struct ExReceiver<T>(Receiver<T>);

/// `std::sync::mpsc::RecvError`: the channel is empty and every sender is
/// gone.
#[verifier::external_type_specification]
#[verifier::external_body]
pub struct ExRecvError(RecvError);

/// `std::sync::Mutex::new`. Nothing is claimed of the mutex it makes.
pub assume_specification<T>[ Mutex::<T>::new ](value: T) -> (cell: Mutex<T>);

/// `std::sync::mpsc::channel`. Nothing is claimed of the two ends it makes.
pub assume_specification<T>[ std::sync::mpsc::channel::<T> ]() -> (ends: (Sender<T>, Receiver<T>));

/// `std::sync::mpsc::Receiver::recv`, which waits until a value arrives or
/// every sender is gone. Nothing is claimed of which of the two happens.
pub assume_specification<T>[ Receiver::<T>::recv ](rx: &Receiver<T>) -> (got: Result<
    T,
    RecvError,
>);

/// The signal that the other end of a mailbox is gone. It carries the value
/// that could not be delivered.
#[derive(Debug, PartialEq, Eq)]
pub struct Disconnected<C>(pub C);

/// What a look into a mailbox found.
pub enum Polled<T> {
    /// The oldest value that was waiting.
    Got(T),
    /// Nothing is waiting, and a sender is still there.
    Empty,
    /// Nothing is waiting, and every sender is gone.
    Disconnected,
}

/// Calls `std::sync::mpsc::Sender::send`, which fails only where the
/// receiving end is gone, and then hands the value back.
#[verifier::external_body]
pub(crate) fn send<T>(tx: &Sender<T>, value: T) -> (sent: Result<(), Disconnected<T>>)
    ensures
        sent matches Err(signal) ==> signal.0 == value,
{
    match tx.send(value) {
        Ok(()) => Ok(()),
        Err(refused) => Err(Disconnected(refused.0)),
    }
}

/// Calls `std::sync::mpsc::Receiver::try_recv`, which does not wait. Nothing
/// is claimed of which of its three outcomes happens.
#[verifier::external_body]
pub(crate) fn try_recv<T>(rx: &Receiver<T>) -> (polled: Polled<T>) {
    match rx.try_recv() {
        Ok(value) => Polled::Got(value),
        Err(TryRecvError::Empty) => Polled::Empty,
        Err(TryRecvError::Disconnected) => Polled::Disconnected,
    }
}

} // verus!
