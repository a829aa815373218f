//! The recorder: what it decides on each command, how captured samples
//! gather, and what a recording session leaves in storage and in the catalog.

use vstd::prelude::*;

use std::sync::mpsc::{Receiver, Sender};

use crate::audio::database::{found_or_new, Data, FSDatabase};
use crate::audio::item_map::is_listing;
use crate::audio::paths::wav_location;
use crate::audio::{text_of, AudioItem, AudioItemView, CommandView, StreamControlCommand};
use crate::background::{send, Disconnected};

verus! {

/// A command to the plain recording control.
#[derive(Clone, Copy, Debug, PartialEq, Eq, Structural)]
pub enum Control {
    Play,
    Pause,
}

/// The plain recording control: it starts and stops the one recorder there
/// is, without naming a session.
pub struct IsRecordingCtrl {
    tx: Sender<Control>,
}

impl IsRecordingCtrl {
    /// A control and the receiving end of the mailbox it sends to.
    pub fn channel() -> (ends: (Self, Receiver<Control>)) {
        let (tx, rx) = std::sync::mpsc::channel::<Control>();
        (IsRecordingCtrl { tx }, rx)
    }

    /// Asks the recorder to record. Where the recorder is gone, the signal
    /// holds the command.
    pub fn start(&self) -> (sent: Result<(), Disconnected<Control>>)
        ensures
            sent matches Err(signal) ==> signal.0 == Control::Play,
    {
        send(&self.tx, Control::Play)
    }

    /// Asks the recorder to stop and store what it has. Where the recorder is
    /// gone, the signal holds the command.
    pub fn pause(&self) -> (sent: Result<(), Disconnected<Control>>)
        ensures
            sent matches Err(signal) ==> signal.0 == Control::Pause,
    {
        send(&self.tx, Control::Pause)
    }
}

/// What the recorder is to do after a command.
#[derive(Debug, PartialEq, Eq)]
pub enum RecorderDirective<Id> {
    /// Let the capture stream run.
    Resume,
    /// Stop the capture stream, store the gathered samples under this id,
    /// file the recording in the catalog and empty the buffer.
    Flush(Id),
    /// Nothing.
    Nothing,
}

impl View for RecorderDirective<String> {
    type V = RecorderDirective<Seq<char>>;

    open spec fn view(&self) -> RecorderDirective<Seq<char>> {
        match self {
            RecorderDirective::Resume => RecorderDirective::Resume,
            RecorderDirective::Flush(id) => RecorderDirective::Flush(id@),
            RecorderDirective::Nothing => RecorderDirective::Nothing,
        }
    }
}

/// What the recorder decides: `Play` remembers the session's id and lets the
/// stream run; `Pause` ends the remembered session, and does nothing where
/// none is remembered.
pub open spec fn recorder_step(in_flight: Option<Seq<char>>, command: CommandView) -> (
    Option<Seq<char>>,
    RecorderDirective<Seq<char>>,
) {
    match command {
        CommandView::Play(id) => (Some(id), RecorderDirective::Resume),
        CommandView::Pause(_) => match in_flight {
            Some(id) => (None, RecorderDirective::Flush(id)),
            None => (None, RecorderDirective::Nothing),
        },
    }
}

/// The recorder's own state: the id of the session that is being recorded.
pub struct Recorder {
    in_flight: Option<String>,
}

impl View for Recorder {
    type V = Option<Seq<char>>;

    closed spec fn view(&self) -> Option<Seq<char>> {
        text_of(self.in_flight)
    }
}

impl Recorder {
    /// A recorder that records nothing yet.
    pub fn new() -> (recorder: Self)
        ensures
            recorder@ is None,
    {
        Recorder { in_flight: None }
    }

    /// The id of the session that is being recorded.
    pub fn in_flight(&self) -> (id: Option<&str>)
        ensures
            self@ is Some <==> id is Some,
            id matches Some(text) ==> self@ == Some(text@),
    {
        match &self.in_flight {
            Some(id) => Some(id.as_str()),
            None => None,
        }
    }

    /// Takes `command` and says what is to be done.
    pub fn handle(&mut self, command: StreamControlCommand) -> (directive: RecorderDirective<String>)
        ensures
            (final(self)@, directive@) == recorder_step(old(self)@, command@),
    {
        match command {
            StreamControlCommand::Play(id) => {
                self.in_flight = Some(id);
                RecorderDirective::Resume
            },
            StreamControlCommand::Pause(_) => match self.in_flight.take() {
                Some(id) => RecorderDirective::Flush(id),
                None => RecorderDirective::Nothing,
            },
        }
    }
}

/// Appends a captured batch to the buffer. This is all that the capture
/// callback does.
pub fn capture<T: Copy>(buffer: &mut Vec<T>, data: &[T])
    ensures
        final(buffer)@ == old(buffer)@ + data@,
{
    let mut i: usize = 0;
    while i < data.len()
        invariant
            i <= data@.len(),
            buffer@ == old(buffer)@ + data@.subrange(0, i as int),
        decreases data@.len() - i,
    {
        buffer.push(data[i]);
        i += 1;
        assert(data@.subrange(0, i as int) =~= data@.subrange(0, i - 1).push(data@[i - 1]));
    }
    assert(data@.subrange(0, i as int) =~= data@);
}

/// Takes the gathered samples out of the buffer and leaves it empty.
pub fn take_samples<T>(buffer: &mut Vec<T>) -> (samples: Vec<T>)
    ensures
        samples@ == old(buffer)@,
        final(buffer)@ == Seq::<T>::empty(),
{
    let mut samples: Vec<T> = Vec::new();
    std::mem::swap(buffer, &mut samples);
    samples
}

/// The catalog after the session `id` has been flushed: the session's
/// recording, the one filed under `id` or a new one, is filed under its id.
pub open spec fn recorded(
    catalog: Map<Seq<char>, AudioItemView>,
    wav_dir: Seq<char>,
    id: Seq<char>,
) -> Map<Seq<char>, AudioItemView> {
    catalog.insert(found_or_new(catalog, wav_dir, id).id, found_or_new(catalog, wav_dir, id))
}

/// What a flush leaves to be stored: the session's recording, the samples,
/// and the file they go to.
pub struct Pending<T> {
    /// The session's recording: the one filed under the session's id, or a
    /// new one.
    pub item: AudioItem,
    /// The samples that were gathered.
    pub samples: Vec<T>,
    /// Where the samples are to be stored.
    pub wav_path: String,
}

/// Begins the flush of the session `id`: the gathered samples are taken out
/// of the buffer, to be stored where the id of the session's recording says.
/// The catalog stays as it is until the samples are stored.
pub fn begin_flush<T>(db: &FSDatabase, id: &str, buffer: &mut Vec<T>) -> (pending: Pending<T>)
    ensures
        pending.item@ == found_or_new(db@, db.wav_dir_text(), id@),
        pending.samples@ == old(buffer)@,
        pending.wav_path@ == wav_location(db.wav_dir_text(), pending.item.id@),
        final(buffer)@ == Seq::<T>::empty(),
{
    let item = db.get_or_create(id);
    let wav_path = db.wav_path(&item);
    let samples = take_samples(buffer);
    Pending { item, samples, wav_path }
}

/// Ends a flush. Where the samples were stored, the session's recording is
/// filed under its id, and the document that is to be written in place of
/// the old one is handed out. Where storing them failed, the catalog and its
/// document stay as they are.
pub fn end_flush(db: &mut FSDatabase, item: AudioItem, stored: bool) -> (document: Option<Data>)
    ensures
        document is Some <==> stored,
        final(db)@ == if stored {
            old(db)@.insert(item.id@, item@)
        } else {
            old(db)@
        },
        document matches Some(data) ==> is_listing(data@, final(db)@),
        final(db).wav_dir_text() == old(db).wav_dir_text(),
        final(db).datafile_text() == old(db).datafile_text(),
{
    if stored {
        Some(db.save_audio_item(item))
    } else {
        None
    }
}

/// All that a recorder works on: its own state, the buffer it shares with
/// the capture callback, the catalog, and the samples in storage, each
/// recording's under its id.
pub struct RecorderWorld<T> {
    pub in_flight: Option<Seq<char>>,
    pub buffer: Seq<T>,
    pub catalog: Map<Seq<char>, AudioItemView>,
    pub wav_dir: Seq<char>,
    pub stored: Map<Seq<char>, Seq<T>>,
}

/// What happens to a recorder: a command arrives, or the capture callback
/// hands over a batch. With a command comes the word of storage: whether it
/// takes the samples, should the command end a session.
pub enum RecorderEvent<T> {
    Command { command: CommandView, stored: bool },
    Captured(Seq<T>),
}

/// The world after one event. A flush empties the buffer; where storage
/// takes the samples, they are stored under the id of the session's
/// recording, and that recording is filed.
pub open spec fn world_step<T>(world: RecorderWorld<T>, event: RecorderEvent<T>) -> RecorderWorld<T> {
    match event {
        RecorderEvent::Captured(batch) => RecorderWorld { buffer: world.buffer + batch, ..world },
        RecorderEvent::Command { command, stored } => {
            let (in_flight, directive) = recorder_step(world.in_flight, command);
            match directive {
                RecorderDirective::Flush(id) => {
                    let item = found_or_new(world.catalog, world.wav_dir, id);
                    if stored {
                        RecorderWorld {
                            in_flight,
                            buffer: Seq::empty(),
                            catalog: recorded(world.catalog, world.wav_dir, id),
                            wav_dir: world.wav_dir,
                            stored: world.stored.insert(item.id, world.buffer),
                        }
                    } else {
                        RecorderWorld { in_flight, buffer: Seq::empty(), ..world }
                    }
                },
                _ => RecorderWorld { in_flight, ..world },
            }
        },
    }
}

/// The world after a run of events.
pub open spec fn world_run<T>(world: RecorderWorld<T>, events: Seq<RecorderEvent<T>>) -> RecorderWorld<T>
    decreases events.len(),
{
    if events.len() == 0 {
        world
    } else {
        world_step(world_run(world, events.drop_last()), events.last())
    }
}

/// The batches one after the other, as one run of samples.
pub open spec fn joined<T>(batches: Seq<Seq<T>>) -> Seq<T>
    decreases batches.len(),
{
    if batches.len() == 0 {
        Seq::empty()
    } else {
        joined(batches.drop_last()) + batches.last()
    }
}

/// The number of samples in all the batches.
pub open spec fn total_len<T>(batches: Seq<Seq<T>>) -> nat
    decreases batches.len(),
{
    if batches.len() == 0 {
        0
    } else {
        total_len(batches.drop_last()) + batches.last().len()
    }
}

/// The events of one recording session: `Play`, the batches as they are
/// captured, and `Pause`, at which storage takes the samples or does not.
pub open spec fn session<T>(
    id: Seq<char>,
    batches: Seq<Seq<T>>,
    pause: Option<Seq<char>>,
    stored: bool,
) -> Seq<RecorderEvent<T>> {
    seq![RecorderEvent::Command { command: CommandView::Play(id), stored }] + batches.map_values(
        |batch: Seq<T>| RecorderEvent::Captured(batch),
    ) + seq![RecorderEvent::Command { command: CommandView::Pause(pause), stored }]
}

/// As many samples are joined as the batches hold.
pub proof fn lemma_joined_len<T>(batches: Seq<Seq<T>>)
    ensures
        joined(batches).len() == total_len(batches),
    decreases batches.len(),
{
    if batches.len() > 0 {
        lemma_joined_len(batches.drop_last());
    }
}

/// Captured batches gather in the buffer and change nothing else.
proof fn lemma_run_captures<T>(world: RecorderWorld<T>, head: Seq<RecorderEvent<T>>, batches: Seq<Seq<T>>)
    ensures
        world_run(world, head + batches.map_values(|batch: Seq<T>| RecorderEvent::Captured(batch)))
            == (RecorderWorld {
            buffer: world_run(world, head).buffer + joined(batches),
            ..world_run(world, head)
        }),
    decreases batches.len(),
{
    let captures = batches.map_values(|batch: Seq<T>| RecorderEvent::Captured(batch));
    let before = world_run(world, head);
    if batches.len() == 0 {
        assert(head + captures =~= head);
        assert(before.buffer + joined(batches) =~= before.buffer);
    } else {
        let front = batches.drop_last();
        let front_captures = front.map_values(|batch: Seq<T>| RecorderEvent::Captured(batch));
        lemma_run_captures(world, head, front);
        assert((head + captures).drop_last() =~= head + front_captures);
        assert((head + captures).last() == RecorderEvent::Captured(batches.last()));
        assert((before.buffer + joined(front)) + batches.last() =~= before.buffer + joined(
            batches,
        ));
    }
}

/// Every session that begins with an empty buffer, and whose samples
/// storage takes, leaves exactly one mark in the catalog and in storage: the
/// session's recording is filed under its id, and the samples stored under
/// that id are the samples that were captured between `Play` and `Pause`,
/// batch by batch. Nothing else in the catalog or in storage changes. Where
/// storage fails, neither of them changes at all. Either way the recorder is
/// idle again, its buffer empty.
pub proof fn lemma_session_records_once<T>(
    world: RecorderWorld<T>,
    id: Seq<char>,
    batches: Seq<Seq<T>>,
    pause: Option<Seq<char>>,
    stored: bool,
)
    requires
        world.buffer.len() == 0,
    ensures
        ({
            let after = world_run(world, session(id, batches, pause, stored));
            let item = found_or_new(world.catalog, world.wav_dir, id);
            &&& stored ==> {
                &&& after.catalog == recorded(world.catalog, world.wav_dir, id)
                &&& after.catalog == world.catalog.insert(item.id, item)
                &&& after.stored == world.stored.insert(item.id, joined(batches))
                &&& after.stored[item.id].len() == total_len(batches)
            }
            &&& !stored ==> after.catalog == world.catalog && after.stored == world.stored
            &&& after.buffer.len() == 0
            &&& after.in_flight is None
        }),
{
    let play = seq![RecorderEvent::<T>::Command { command: CommandView::Play(id), stored }];
    let captures = batches.map_values(|batch: Seq<T>| RecorderEvent::Captured(batch));
    let events = session(id, batches, pause, stored);
    assert(play.drop_last() =~= Seq::empty());
    assert(world_run(world, play.drop_last()) == world);
    let started = world_run(world, play);
    assert(started == RecorderWorld { in_flight: Some(id), ..world });
    lemma_run_captures(world, play, batches);
    assert(events.drop_last() =~= play + captures);
    assert(events.last() == RecorderEvent::<T>::Command {
        command: CommandView::Pause(pause),
        stored,
    });
    assert(world.buffer + joined(batches) =~= joined(batches));
    lemma_joined_len(batches);
}

/// A `Pause` that no `Play` went before changes nothing: not the catalog, not
/// storage, not the buffer.
pub proof fn lemma_pause_without_play<T>(
    world: RecorderWorld<T>,
    pause: Option<Seq<char>>,
    stored: bool,
)
    requires
        world.in_flight is None,
    ensures
        world_step(world, RecorderEvent::Command { command: CommandView::Pause(pause), stored })
            == world,
{
}

} // verus!
