//! The listener that gathers samples for transcription: its capture window,
//! and what it decides on each turn of its control loop.

use vstd::prelude::*;

use crate::audio::format::{BufferSize, StreamConfig};
use crate::audio::stt::TranscriptionJob;
use crate::audio::{text_of, CommandView, StreamControlCommand};
use crate::background::procedure::TryResponseError;

verus! {

/// The sample rate that the transcription engine asks for.
pub const WHISPER_SAMPLE_RATE: u32 = 16000;

/// The longest stretch that is transcribed in one piece, in seconds.
pub const MAX_AUDIO_LEN_SECONDS: u32 = 5;

/// The transcription engine takes one channel.
pub const WHISPER_CHANNEL_COUNT: u16 = 1;

/// The capture window: as many samples as `MAX_AUDIO_LEN_SECONDS` seconds
/// hold at `WHISPER_SAMPLE_RATE`.
pub fn capture_window() -> (window: u32)
    ensures
        window == WHISPER_SAMPLE_RATE * MAX_AUDIO_LEN_SECONDS,
        window == 80000,
{
    WHISPER_SAMPLE_RATE * MAX_AUDIO_LEN_SECONDS
}

/// The layout of the listener's own capture stream: what the transcription
/// engine asks for, handed over in batches of one capture window.
pub fn listener_config() -> (config: StreamConfig)
    ensures
        config.channels == WHISPER_CHANNEL_COUNT,
        config.sample_rate == WHISPER_SAMPLE_RATE,
        config.buffer_size matches BufferSize::Fixed(window) && window == WHISPER_SAMPLE_RATE
            * MAX_AUDIO_LEN_SECONDS,
{
    StreamConfig {
        channels: WHISPER_CHANNEL_COUNT,
        sample_rate: WHISPER_SAMPLE_RATE,
        buffer_size: BufferSize::Fixed(capture_window()),
    }
}

/// The buffer after a batch arrives: the batch is appended while the buffer
/// holds less than `cap` samples, and dropped once it holds `cap`.
pub open spec fn captured<T>(inner: Seq<T>, cap: nat, data: Seq<T>) -> Seq<T> {
    if inner.len() >= cap {
        inner
    } else {
        inner + data
    }
}

/// The listener's buffer: the samples gathered in this session, and the
/// number from which on the buffer counts as full.
pub struct Buffer<T> {
    cap: u32,
    inner: Vec<T>,
}

impl<T: Copy> Buffer<T> {
    /// The number of samples from which on the buffer is full.
    pub closed spec fn cap(&self) -> nat {
        self.cap as nat
    }

    /// The samples gathered.
    pub closed spec fn samples(&self) -> Seq<T> {
        self.inner@
    }

    /// An empty buffer that is full at `cap` samples.
    pub fn new(cap: u32) -> (buffer: Self)
        ensures
            buffer.cap() == cap,
            buffer.samples() == Seq::<T>::empty(),
    {
        Self { inner: Vec::with_capacity(cap as usize), cap }
    }

    /// The number of samples gathered.
    pub fn len(&self) -> (n: usize)
        ensures
            n == self.samples().len(),
    {
        self.inner.len()
    }

    /// Whether the buffer holds as many samples as it is meant to.
    pub fn is_full(&self) -> (full: bool)
        ensures
            full == (self.samples().len() >= self.cap()),
    {
        self.inner.len() >= self.cap as usize
    }

    /// Appends `data`, whatever the buffer holds.
    pub fn extends(&mut self, data: &[T])
        ensures
            final(self).samples() == old(self).samples() + data@,
            final(self).cap() == old(self).cap(),
    {
        crate::audio::ecouter::capture(&mut self.inner, data);
    }

    /// Takes a captured batch: it is appended unless the buffer is full.
    /// This is all that the capture callback does.
    pub fn capture(&mut self, data: &[T])
        ensures
            final(self).samples() == captured(old(self).samples(), old(self).cap(), data@),
            final(self).cap() == old(self).cap(),
    {
        if !self.is_full() {
            self.extends(data)
        }
    }

    /// Empties the buffer.
    pub fn clear(&mut self)
        ensures
            final(self).samples() == Seq::<T>::empty(),
            final(self).cap() == old(self).cap(),
    {
        self.inner.clear();
    }

    /// Hands the gathered samples over as the job of the session `id`, and
    /// leaves the buffer empty.
    pub fn flush(&mut self, id: String) -> (job: TranscriptionJob<T>)
        ensures
            job.id == id,
            job.samples@ == old(self).samples(),
            final(self).samples() == Seq::<T>::empty(),
            final(self).cap() == old(self).cap(),
    {
        TranscriptionJob { id, samples: self.take() }
    }

    /// Takes the gathered samples out and leaves the buffer empty.
    pub fn take(&mut self) -> (samples: Vec<T>)
        ensures
            samples@ == old(self).samples(),
            final(self).samples() == Seq::<T>::empty(),
            final(self).cap() == old(self).cap(),
    {
        crate::audio::ecouter::take_samples(&mut self.inner)
    }
}

/// What a turn of the listener's control loop found.
#[derive(Debug, PartialEq, Eq)]
pub enum ListenerEvent<C> {
    /// A command was waiting.
    Command(C),
    /// No command was waiting; the buffer is full, or is not.
    Idle { buffer_full: bool },
    /// No command will come any more.
    Disconnected,
}

impl View for ListenerEvent<StreamControlCommand> {
    type V = ListenerEvent<CommandView>;

    open spec fn view(&self) -> ListenerEvent<CommandView> {
        match self {
            ListenerEvent::Command(command) => ListenerEvent::Command(command@),
            ListenerEvent::Idle { buffer_full } => ListenerEvent::Idle { buffer_full: *buffer_full },
            ListenerEvent::Disconnected => ListenerEvent::Disconnected,
        }
    }
}

/// What the listener is to do after a turn of its control loop.
#[derive(Debug, PartialEq, Eq)]
pub enum ListenerDirective<Id> {
    /// Empty the buffer and let the capture stream run.
    Start,
    /// Stop the capture stream, hand the buffer to the transcription worker
    /// for the session with this id, and empty the buffer.
    Flush(Id),
    /// Nothing.
    Nothing,
    /// Leave the control loop.
    Stop,
}

impl View for ListenerDirective<String> {
    type V = ListenerDirective<Seq<char>>;

    open spec fn view(&self) -> ListenerDirective<Seq<char>> {
        match self {
            ListenerDirective::Start => ListenerDirective::Start,
            ListenerDirective::Flush(id) => ListenerDirective::Flush(id@),
            ListenerDirective::Nothing => ListenerDirective::Nothing,
            ListenerDirective::Stop => ListenerDirective::Stop,
        }
    }
}

/// What the listener decides. `Play` begins a session. The session is
/// flushed by the first of two things: a `Pause`, or a turn that finds the
/// buffer full. After the flush, and before any `Play`, neither does
/// anything. A mailbox that is gone ends the loop.
pub open spec fn listener_step(in_flight: Option<Seq<char>>, event: ListenerEvent<CommandView>) -> (
    Option<Seq<char>>,
    ListenerDirective<Seq<char>>,
) {
    match event {
        ListenerEvent::Command(CommandView::Play(id)) => (Some(id), ListenerDirective::Start),
        ListenerEvent::Command(CommandView::Pause(_)) => match in_flight {
            Some(id) => (None, ListenerDirective::Flush(id)),
            None => (None, ListenerDirective::Nothing),
        },
        ListenerEvent::Idle { buffer_full } => match in_flight {
            Some(id) => if buffer_full {
                (None, ListenerDirective::Flush(id))
            } else {
                (in_flight, ListenerDirective::Nothing)
            },
            None => (None, ListenerDirective::Nothing),
        },
        ListenerEvent::Disconnected => (in_flight, ListenerDirective::Stop),
    }
}

/// What a look into the mailbox, and a look at the buffer, amount to.
pub fn event_of(
    polled: Result<StreamControlCommand, TryResponseError>,
    buffer_full: bool,
) -> (event: ListenerEvent<StreamControlCommand>)
    ensures
        event == match polled {
            Ok(command) => ListenerEvent::Command(command),
            Err(TryResponseError::Nothing) => ListenerEvent::Idle { buffer_full },
            Err(TryResponseError::Disconnected) => ListenerEvent::Disconnected,
        },
{
    match polled {
        Ok(command) => ListenerEvent::Command(command),
        Err(TryResponseError::Nothing) => ListenerEvent::Idle { buffer_full },
        Err(TryResponseError::Disconnected) => ListenerEvent::Disconnected,
    }
}

/// The listener's own state: the id of the session that is being listened
/// to and has not been flushed yet.
pub struct Listener {
    in_flight: Option<String>,
}

impl View for Listener {
    type V = Option<Seq<char>>;

    closed spec fn view(&self) -> Option<Seq<char>> {
        text_of(self.in_flight)
    }
}

impl Listener {
    /// A listener that listens to nothing yet.
    pub fn new() -> (listener: Self)
        ensures
            listener@ is None,
    {
        Listener { in_flight: None }
    }

    /// The id of the session that is being listened to.
    pub fn in_flight(&self) -> (id: Option<&str>)
        ensures
            self@ is Some <==> id is Some,
            id matches Some(text) ==> self@ == Some(text@),
    {
        match &self.in_flight {
            Some(id) => Some(id.as_str()),
            None => None,
        }
    }

    /// Takes what a turn of the control loop found and says what is to be
    /// done.
    pub fn handle(&mut self, event: ListenerEvent<StreamControlCommand>) -> (directive:
        ListenerDirective<String>)
        ensures
            (final(self)@, directive@) == listener_step(old(self)@, event@),
    {
        match event {
            ListenerEvent::Command(StreamControlCommand::Play(id)) => {
                self.in_flight = Some(id);
                ListenerDirective::Start
            },
            ListenerEvent::Command(StreamControlCommand::Pause(_)) => match self.in_flight.take() {
                Some(id) => ListenerDirective::Flush(id),
                None => ListenerDirective::Nothing,
            },
            ListenerEvent::Idle { buffer_full } => {
                if buffer_full {
                    match self.in_flight.take() {
                        Some(id) => ListenerDirective::Flush(id),
                        None => ListenerDirective::Nothing,
                    }
                } else {
                    ListenerDirective::Nothing
                }
            },
            ListenerEvent::Disconnected => ListenerDirective::Stop,
        }
    }
}

/// All that a listener works on: its own state, the buffer it shares with
/// the capture callback, and the jobs it has handed to the transcription
/// worker, each with its session's id.
pub struct ListenerWorld<T> {
    pub in_flight: Option<Seq<char>>,
    pub cap: nat,
    pub buffer: Seq<T>,
    pub jobs: Seq<(Seq<char>, Seq<T>)>,
}

/// What happens to a listener: a command arrives, the control loop takes a
/// turn without one, or the capture callback hands over a batch.
pub enum ListenerHappening<T> {
    Command(CommandView),
    Turn,
    Captured(Seq<T>),
}

/// The world after the listener has done what it decided.
pub open spec fn world_after<T>(
    world: ListenerWorld<T>,
    event: ListenerEvent<CommandView>,
) -> ListenerWorld<T> {
    let (in_flight, directive) = listener_step(world.in_flight, event);
    match directive {
        ListenerDirective::Start => ListenerWorld { in_flight, buffer: Seq::empty(), ..world },
        ListenerDirective::Flush(id) => ListenerWorld {
            in_flight,
            buffer: Seq::empty(),
            jobs: world.jobs.push((id, world.buffer)),
            ..world
        },
        _ => ListenerWorld { in_flight, ..world },
    }
}

/// The world after one happening.
pub open spec fn world_step<T>(world: ListenerWorld<T>, happening: ListenerHappening<T>) -> ListenerWorld<T> {
    match happening {
        ListenerHappening::Captured(batch) => ListenerWorld {
            buffer: captured(world.buffer, world.cap, batch),
            ..world
        },
        ListenerHappening::Command(command) => world_after(world, ListenerEvent::Command(command)),
        ListenerHappening::Turn => world_after(
            world,
            ListenerEvent::Idle { buffer_full: world.buffer.len() >= world.cap },
        ),
    }
}

/// The world after a run of happenings.
pub open spec fn world_run<T>(world: ListenerWorld<T>, happenings: Seq<ListenerHappening<T>>) -> ListenerWorld<T>
    decreases happenings.len(),
{
    if happenings.len() == 0 {
        world
    } else {
        world_step(world_run(world, happenings.drop_last()), happenings.last())
    }
}

/// The number of jobs among `jobs` that the transcription worker takes on:
/// those that hold samples.
pub open spec fn transcriptions<T>(jobs: Seq<(Seq<char>, Seq<T>)>) -> nat
    decreases jobs.len(),
{
    if jobs.len() == 0 {
        0
    } else {
        transcriptions(jobs.drop_last()) + if jobs.last().1.len() > 0 {
            1nat
        } else {
            0nat
        }
    }
}

/// No `Play` is among the happenings.
pub open spec fn no_play<T>(happenings: Seq<ListenerHappening<T>>) -> bool {
    forall|i: int|
        0 <= i < happenings.len() ==> !(#[trigger] happenings[i] matches ListenerHappening::Command(
            CommandView::Play(_),
        ))
}

/// Within one session the listener hands at most one job to the
/// transcription worker, whatever happens and in whatever order: whether the
/// buffer runs full, a `Pause` comes, or both. Where no session is open, it
/// hands over none. A job that is handed over is the open session's.
pub proof fn lemma_one_flush_per_session<T>(world: ListenerWorld<T>, happenings: Seq<ListenerHappening<T>>)
    requires
        no_play(happenings),
    ensures
        ({
            let after = world_run(world, happenings);
            &&& after.jobs == world.jobs || (world.in_flight is Some && after.in_flight is None
                && after.jobs.len() == world.jobs.len() + 1 && after.jobs.drop_last()
                == world.jobs && after.jobs.last().0 == world.in_flight->0)
            &&& after.jobs == world.jobs ==> after.in_flight == world.in_flight
                || after.in_flight is None
            &&& after.cap == world.cap
        }),
    decreases happenings.len(),
{
    if happenings.len() > 0 {
        let front = happenings.drop_last();
        assert(no_play(front)) by {
            assert forall|i: int| 0 <= i < front.len() implies !(#[trigger] front[i]
                matches ListenerHappening::Command(CommandView::Play(_))) by {
                assert(front[i] == happenings[i]);
            }
        }
        lemma_one_flush_per_session(world, front);
        let before = world_run(world, front);
        let last = happenings[happenings.len() - 1];
        assert(!(last matches ListenerHappening::Command(CommandView::Play(_))));
        let after = world_step(before, last);
        if after.jobs != before.jobs {
            assert(before.in_flight is Some);
            assert(before.jobs == world.jobs);
            assert(after.jobs.drop_last() =~= world.jobs);
        }
    }
}

/// The samples that the capture callback hands over in the course of
/// `happenings`, in order.
pub open spec fn gathered<T>(happenings: Seq<ListenerHappening<T>>) -> Seq<T>
    decreases happenings.len(),
{
    if happenings.len() == 0 {
        Seq::empty()
    } else {
        gathered(happenings.drop_last()) + match happenings.last() {
            ListenerHappening::Captured(batch) => batch,
            _ => Seq::empty(),
        }
    }
}

/// No command is among the happenings.
pub open spec fn quiet<T>(happenings: Seq<ListenerHappening<T>>) -> bool {
    forall|i: int|
        0 <= i < happenings.len() ==> !(#[trigger] happenings[i] is Command)
}

/// A run of happenings, and another after it, is one run.
pub proof fn lemma_run_add<T>(
    world: ListenerWorld<T>,
    first: Seq<ListenerHappening<T>>,
    second: Seq<ListenerHappening<T>>,
)
    ensures
        world_run(world, first + second) == world_run(world_run(world, first), second),
    decreases second.len(),
{
    if second.len() == 0 {
        assert(first + second =~= first);
    } else {
        lemma_run_add(world, first, second.drop_last());
        assert((first + second).drop_last() =~= first + second.drop_last());
    }
}

/// In a session that has just begun, while no command comes and no more than
/// a window's worth of samples is captured, one of two things holds: the
/// session is open and the buffer holds all that was captured; or the window
/// has been filled, the session has been flushed with all of it, and the
/// buffer is empty.
proof fn lemma_quiet_session<T>(
    world: ListenerWorld<T>,
    id: Seq<char>,
    happenings: Seq<ListenerHappening<T>>,
)
    requires
        world.in_flight == Some(id),
        world.buffer.len() == 0,
        quiet(happenings),
        gathered(happenings).len() <= world.cap,
    ensures
        ({
            let after = world_run(world, happenings);
            let all = gathered(happenings);
            &&& after.cap == world.cap
            &&& {
                ||| after.in_flight == Some(id) && after.jobs == world.jobs && after.buffer == all
                ||| after.in_flight is None && after.jobs == world.jobs.push((id, all))
                    && after.buffer.len() == 0 && all.len() == world.cap
            }
        }),
    decreases happenings.len(),
{
    if happenings.len() == 0 {
        assert(world.buffer =~= Seq::empty());
    } else {
        let front = happenings.drop_last();
        assert(quiet(front)) by {
            assert forall|i: int| 0 <= i < front.len() implies !(#[trigger] front[i] is Command) by {
                assert(front[i] == happenings[i]);
            }
        }
        lemma_quiet_session(world, id, front);
        let before = world_run(world, front);
        let last = happenings[happenings.len() - 1];
        assert(!(last is Command));
        let after = world_step(before, last);
        match last {
            ListenerHappening::Captured(batch) => {
                if before.in_flight is None || before.buffer.len() >= before.cap {
                    assert(batch =~= Seq::empty());
                    assert(gathered(happenings) =~= gathered(front));
                    assert(before.buffer + batch =~= before.buffer);
                }
            },
            _ => {
                assert(gathered(happenings) =~= gathered(front));
            },
        }
    }
}

/// Every session in which no more than a window's worth of samples is
/// captured is handed to the transcription worker exactly once, with all the
/// samples that were captured: whether a `Pause` ends it before the window is
/// full, or the window is filled exactly and a turn of the control loop, a
/// `Pause`, or both, in either order, ask for the flush. Where samples were
/// captured at all, this makes one transcription.
pub proof fn lemma_session_is_transcribed_once<T>(
    world: ListenerWorld<T>,
    id: Seq<char>,
    happenings: Seq<ListenerHappening<T>>,
    pause: Option<Seq<char>>,
)
    requires
        quiet(happenings),
        gathered(happenings).len() <= world.cap,
    ensures
        ({
            let play = seq![ListenerHappening::Command(CommandView::Play(id))];
            let stop = seq![ListenerHappening::Command(CommandView::Pause(pause))];
            let after = world_run(world, play + happenings + stop);
            let all = gathered(happenings);
            &&& after.jobs == world.jobs.push((id, all))
            &&& after.in_flight is None
            &&& after.buffer.len() == 0
            &&& all.len() > 0 ==> transcriptions(after.jobs) == transcriptions(world.jobs) + 1
        }),
{
    let play = seq![ListenerHappening::<T>::Command(CommandView::Play(id))];
    let stop = seq![ListenerHappening::<T>::Command(CommandView::Pause(pause))];
    assert(play.drop_last() =~= Seq::empty());
    assert(world_run(world, play.drop_last()) == world);
    let begun = world_run(world, play);
    assert(begun == ListenerWorld { in_flight: Some(id), buffer: Seq::empty(), ..world });
    lemma_quiet_session(begun, id, happenings);
    lemma_run_add(world, play, happenings);
    lemma_run_add(world, play + happenings, stop);
    let open = world_run(begun, happenings);
    assert(stop.drop_last() =~= Seq::empty());
    assert(world_run(open, stop.drop_last()) == open);
    assert(world.jobs.push((id, gathered(happenings))).drop_last() =~= world.jobs);
}

/// A `Pause`, or a turn of the control loop, that no `Play` went before
/// changes nothing: no job is handed over, and the buffer stays as it is.
pub proof fn lemma_pause_without_play<T>(world: ListenerWorld<T>, pause: Option<Seq<char>>)
    requires
        world.in_flight is None,
    ensures
        world_step(world, ListenerHappening::Command(CommandView::Pause(pause))) == world,
        world_step(world, ListenerHappening::Turn) == world,
{
}

} // verus!
