//! A worker that is sent commands and answers nothing.

use vstd::prelude::*;

use std::sync::mpsc::{Receiver, Sender};
use std::sync::{Arc, Mutex};

use crate::background::{send, try_recv, Disconnected, Polled};

verus! {

/// The handle to a worker: the state it shares with the worker, and the
/// sending end of the worker's mailbox.
#[verifier::reject_recursive_types(S)]
#[verifier::reject_recursive_types(C)]
pub struct BackgroundProcedure<S: Sync + Send, C: Send> {
    pub state: Arc<Mutex<S>>,
    pub tx: Sender<C>,
}

/// What the worker is given: the shared state, and the receiving end of its
/// mailbox.
#[verifier::reject_recursive_types(S)]
#[verifier::reject_recursive_types(C)]
pub struct WorkArgs<S, C: Send> {
    pub state: Arc<Mutex<S>>,
    pub rx: Receiver<C>,
}

/// Why a look into the mailbox gave no command.
#[derive(Clone, Copy, Debug, PartialEq, Eq, Structural)]
pub enum TryResponseError {
    Nothing,
    Disconnected,
}

impl TryResponseError {
    /// The error in words.
    pub fn message(&self) -> (text: &'static str)
        ensures
            text@ == match self {
                TryResponseError::Nothing => "no response yet"@,
                TryResponseError::Disconnected => "channel is disconnected"@,
            },
    {
        match self {
            TryResponseError::Nothing => "no response yet",
            TryResponseError::Disconnected => "channel is disconnected",
        }
    }
}

/// What `try_command` makes of a look into the mailbox.
pub open spec fn command_of<C>(polled: Polled<C>) -> Result<C, TryResponseError> {
    match polled {
        Polled::Got(command) => Ok(command),
        Polled::Empty => Err(TryResponseError::Nothing),
        Polled::Disconnected => Err(TryResponseError::Disconnected),
    }
}

/// Tells "nothing yet" from "sender gone" in what a look into the mailbox
/// found.
pub fn classify<C>(polled: Polled<C>) -> (command: Result<C, TryResponseError>)
    ensures
        command == command_of(polled),
{
    match polled {
        Polled::Got(command) => Ok(command),
        Polled::Empty => Err(TryResponseError::Nothing),
        Polled::Disconnected => Err(TryResponseError::Disconnected),
    }
}

impl<S: Send + Sync + 'static, C: Send + 'static> BackgroundProcedure<S, C> {
    /// A handle and what its worker is to be given. Both hold the same state,
    /// `state` to begin with, and the two ends of one mailbox.
    pub fn channel(state: S) -> (ends: (Self, WorkArgs<S, C>))
        ensures
            ends.0.state == ends.1.state,
    {
        let (tx, rx) = std::sync::mpsc::channel::<C>();
        let job = BackgroundProcedure { state: Arc::new(Mutex::new(state)), tx };
        let state_ref = Arc::clone(&job.state);
        (job, WorkArgs { state: state_ref, rx })
    }

    /// Sends `command` to the worker and does not wait for it. Where the
    /// worker's mailbox is gone the command comes back in the signal.
    pub fn trigger(&self, command: C) -> (sent: Result<(), Disconnected<C>>)
        ensures
            sent matches Err(signal) ==> signal.0 == command,
    {
        send(&self.tx, command)
    }
}

impl<S, C: Send> WorkArgs<S, C> {
    /// The oldest command that waits in the mailbox, without waiting for one.
    pub fn try_command(&self) -> (next: Result<C, TryResponseError>) {
        classify(try_recv(&self.rx))
    }
}

} // verus!
