//! What the engine is asked from outside: to record, to stop recording, to
//! play and to pause. Each request becomes commands to the pipelines.

use vstd::prelude::*;

use std::sync::{Arc, Mutex};

use crate::audio::database::FSDatabase;
use crate::audio::player::Player;
use crate::audio::StreamControlCommand;
use crate::background::procedure::BackgroundProcedure;
use crate::background::Disconnected;
use crate::ids::{fresh_id, is_session_id};

verus! {

/// The handles to the three pipelines, and the catalog they share. `B` is
/// the type of a sample.
#[verifier::reject_recursive_types(B)]
pub struct AudioCtrls<B: Sync + Send> {
    pub player: BackgroundProcedure<Player, StreamControlCommand>,
    pub ecouter: BackgroundProcedure<Vec<B>, StreamControlCommand>,
    pub sttlistener: BackgroundProcedure<(), StreamControlCommand>,
    pub db: Arc<Mutex<FSDatabase>>,
}

/// The commands that begin the session `id`: one for the recorder and one
/// for the listener, both with the session's id.
pub fn session_commands(id: String) -> (commands: (StreamControlCommand, StreamControlCommand))
    ensures
        commands.0 == StreamControlCommand::Play(id),
        commands.1 == StreamControlCommand::Play(id),
{
    (StreamControlCommand::Play(id.clone()), StreamControlCommand::Play(id))
}

impl<B: Sync + Send + 'static> AudioCtrls<B> {
    /// Begins a session under a new id: the recorder and the listener are
    /// both told to play it. The id is handed back. Where a pipeline is gone,
    /// the signal holds the command that it did not take, and the pipeline
    /// after it is not told.
    pub fn record_start(&self) -> (started: Result<String, Disconnected<StreamControlCommand>>)
        ensures
            match started {
                Ok(id) => is_session_id(id@),
                Err(signal) => signal.0 matches StreamControlCommand::Play(id) && is_session_id(id@),
            },
    {
        let id = fresh_id();
        let (to_recorder, to_listener) = session_commands(id.clone());
        match self.ecouter.trigger(to_recorder) {
            Ok(()) => {},
            Err(signal) => {
                return Err(signal);
            },
        }
        match self.sttlistener.trigger(to_listener) {
            Ok(()) => Ok(id),
            Err(signal) => Err(signal),
        }
    }

    /// Ends the session: the recorder and the listener are both told to
    /// pause. Where a pipeline is gone, the signal holds the command that it
    /// did not take, and the pipeline after it is not told.
    pub fn record_pause(&self) -> (paused: Result<(), Disconnected<StreamControlCommand>>)
        ensures
            paused matches Err(signal) ==> signal.0 == StreamControlCommand::Pause(None),
    {
        match self.ecouter.trigger(StreamControlCommand::Pause(None)) {
            Ok(()) => {},
            Err(signal) => {
                return Err(signal);
            },
        }
        self.sttlistener.trigger(StreamControlCommand::Pause(None))
    }

    /// Tells the player to play the recording `id`.
    pub fn player_start(&self, id: String) -> (sent: Result<(), Disconnected<StreamControlCommand>>)
        ensures
            sent matches Err(signal) ==> signal.0 == StreamControlCommand::Play(id),
    {
        self.player.trigger(StreamControlCommand::Play(id))
    }

    /// Tells the player to pause the recording `id`.
    pub fn player_pause(&self, id: String) -> (sent: Result<(), Disconnected<StreamControlCommand>>)
        ensures
            sent matches Err(signal) ==> signal.0 == StreamControlCommand::Pause(Some(id)),
    {
        self.player.trigger(StreamControlCommand::Pause(Some(id)))
    }
}

} // verus!
