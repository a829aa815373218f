//! A worker that is sent commands and sends responses back.

use vstd::prelude::*;

use std::sync::mpsc::{Receiver, RecvError, Sender};
use std::sync::{Arc, Mutex};

use crate::background::{send, try_recv, Disconnected, Polled};

verus! {

/// The handle to a worker: the state it shares with the worker, the sending
/// end of the worker's mailbox, and the receiving end of its responses.
#[verifier::reject_recursive_types(S)]
#[verifier::reject_recursive_types(C)]
#[verifier::reject_recursive_types(R)]
pub struct BackgroundJob<S: Sync + Send, C: Send, R: Send> {
    pub state: Arc<Mutex<S>>,
    tx: Sender<C>,
    rx: Receiver<R>,
}

/// What the worker is given: the shared state, the receiving end of its
/// mailbox, and the sending end for its responses.
#[verifier::reject_recursive_types(S)]
#[verifier::reject_recursive_types(C)]
#[verifier::reject_recursive_types(R)]
pub struct WorkArgs<S, C: Send, R: Send> {
    pub state: Arc<Mutex<S>>,
    pub rx: Receiver<C>,
    pub tx: Sender<R>,
}

/// Why a look for a response gave none.
#[derive(Clone, Copy, Debug, PartialEq, Eq, Structural)]
pub enum TryResponseError {
    /// The worker has sent nothing that was not taken yet.
    Nothing,
    /// The worker is gone, and so is all it sent.
    Disconnected,
}

impl TryResponseError {
    /// The error in words.
    pub fn message(&self) -> (text: &'static str)
        ensures
            text@ == match self {
                TryResponseError::Nothing => "no response yet"@,
                TryResponseError::Disconnected => "channel is disconnected"@,
            },
    {
        match self {
            TryResponseError::Nothing => "no response yet",
            TryResponseError::Disconnected => "channel is disconnected",
        }
    }
}

/// What `try_response` makes of a look into the responses.
pub open spec fn response_of<R>(polled: Polled<R>) -> Result<R, TryResponseError> {
    match polled {
        Polled::Got(response) => Ok(response),
        Polled::Empty => Err(TryResponseError::Nothing),
        Polled::Disconnected => Err(TryResponseError::Disconnected),
    }
}

/// Tells "nothing yet" from "sender gone" in what a look into the responses
/// found.
pub fn classify<R>(polled: Polled<R>) -> (response: Result<R, TryResponseError>)
    ensures
        response == response_of(polled),
{
    match polled {
        Polled::Got(response) => Ok(response),
        Polled::Empty => Err(TryResponseError::Nothing),
        Polled::Disconnected => Err(TryResponseError::Disconnected),
    }
}

impl<S: Send + Sync + 'static, C: Send + 'static, R: Send + 'static> BackgroundJob<S, C, R> {
    /// The state that the handle shares with its worker.
    pub closed spec fn shared_state(&self) -> Arc<Mutex<S>> {
        self.state
    }

    /// A handle and what its worker is to be given. Both hold the same state,
    /// `state` to begin with, and the ends of one mailbox and of one line of
    /// responses.
    pub fn channel(state: S) -> (ends: (Self, WorkArgs<S, C, R>))
        ensures
            ends.0.shared_state() == ends.1.state,
    {
        let (tx, rx) = std::sync::mpsc::channel::<C>();
        let (tx_prime, rx_prime) = std::sync::mpsc::channel::<R>();
        let job = BackgroundJob { state: Arc::new(Mutex::new(state)), tx, rx: rx_prime };
        let state_ref = Arc::clone(&job.state);
        (job, WorkArgs { state: state_ref, rx, tx: tx_prime })
    }

    /// Sends `command` to the worker and does not wait for it. Where the
    /// worker's mailbox is gone the command comes back in the signal.
    pub fn trigger(&self, command: C) -> (sent: Result<(), Disconnected<C>>)
        ensures
            sent matches Err(signal) ==> signal.0 == command,
    {
        send(&self.tx, command)
    }

    /// Waits for the worker's next response. The error says that the worker
    /// is gone and has left no response.
    pub fn wait_for_response(&self) -> (response: Result<R, RecvError>) {
        self.rx.recv()
    }

    /// The worker's next response, if one is there already.
    pub fn try_response(&self) -> (response: Result<R, TryResponseError>) {
        classify(try_recv(&self.rx))
    }
}

} // verus!
