//! The player: what it decides on each command and on each report of its
//! loader, in the order in which the sink and the catalog are to be touched.

use vstd::prelude::*;

use crate::audio::database::{catalog_updated, Data, FSDatabase, UpdateParams, UpdateView};
use crate::audio::item_map::is_listing;
use crate::audio::{text_of, AudioItemView, CommandView, StreamControlCommand};

verus! {

/// One thing that the player is to do.
#[derive(Debug, PartialEq, Eq)]
pub enum PlayerAction<Id> {
    /// Pause the sink.
    PauseSink,
    /// Stop what the sink plays.
    StopSink,
    /// Empty the sink's queue.
    ClearSink,
    /// Set `is_playing` of the recording `id` in the catalog.
    Mark { id: Id, playing: bool },
    /// Open and decode the recording and feed it to the sink.
    Load(Id),
    /// Let the sink play.
    ResumeSink,
}

impl View for PlayerAction<String> {
    type V = PlayerAction<Seq<char>>;

    open spec fn view(&self) -> PlayerAction<Seq<char>> {
        match self {
            PlayerAction::PauseSink => PlayerAction::PauseSink,
            PlayerAction::StopSink => PlayerAction::StopSink,
            PlayerAction::ClearSink => PlayerAction::ClearSink,
            PlayerAction::Mark { id, playing } => PlayerAction::Mark { id: id@, playing: *playing },
            PlayerAction::Load(id) => PlayerAction::Load(id@),
            PlayerAction::ResumeSink => PlayerAction::ResumeSink,
        }
    }
}

/// What a list of actions says, as plain text.
pub open spec fn actions_view(actions: Seq<PlayerAction<String>>) -> Seq<PlayerAction<Seq<char>>> {
    actions.map_values(|action: PlayerAction<String>| action@)
}

/// What the player decides on a command.
///
/// `Play` marks the recording as playing and lets the sink play. Where
/// another recording is loaded, that one is stopped, cleared and marked as
/// paused first; where the recording is not the loaded one, it is loaded.
/// `Pause` pauses the sink and marks the named recording, if one is named, as
/// paused; what is loaded stays loaded.
pub open spec fn player_step(loaded: Option<Seq<char>>, command: CommandView) -> (
    Option<Seq<char>>,
    Seq<PlayerAction<Seq<char>>>,
) {
    match command {
        CommandView::Play(id) => match loaded {
            Some(current) => if current == id {
                (Some(id), seq![PlayerAction::Mark { id, playing: true }, PlayerAction::ResumeSink])
            } else {
                (
                    Some(id),
                    seq![
                        PlayerAction::PauseSink,
                        PlayerAction::StopSink,
                        PlayerAction::ClearSink,
                        PlayerAction::Mark { id: current, playing: false },
                        PlayerAction::Mark { id, playing: true },
                        PlayerAction::Load(id),
                        PlayerAction::ResumeSink,
                    ],
                )
            },
            None => (
                Some(id),
                seq![
                    PlayerAction::Mark { id, playing: true },
                    PlayerAction::Load(id),
                    PlayerAction::ResumeSink,
                ],
            ),
        },
        CommandView::Pause(Some(id)) => (
            loaded,
            seq![PlayerAction::PauseSink, PlayerAction::Mark { id, playing: false }],
        ),
        CommandView::Pause(None) => (loaded, seq![PlayerAction::PauseSink]),
    }
}

/// How far the sink has come with a track.
#[derive(Clone, Copy, Debug, PartialEq, Eq, Structural)]
pub struct Progress {
    /// How much of the track the sink has played, in milliseconds.
    pub position: u64,
    /// How long the decoded track is, in milliseconds, where that is known.
    pub duration: Option<u64>,
    /// Whether the sink has nothing left to play.
    pub sink_empty: bool,
}

/// Whether the track has been played to its end: the sink's position has
/// reached the track's length, or, where the length is not known, the sink
/// has run empty.
pub open spec fn played_out(progress: Progress) -> bool {
    match progress.duration {
        Some(duration) => progress.position >= duration,
        None => progress.sink_empty,
    }
}

/// What the player decides when its loader reports how far the sink has come
/// with the track `id`: once the loaded track has been played to its end, it
/// is marked as paused and nothing is loaded any more.
pub open spec fn player_progress(loaded: Option<Seq<char>>, id: Seq<char>, progress: Progress) -> (
    Option<Seq<char>>,
    Seq<PlayerAction<Seq<char>>>,
) {
    if loaded == Some(id) && played_out(progress) {
        (None, seq![PlayerAction::Mark { id, playing: false }])
    } else {
        (loaded, Seq::empty())
    }
}

/// What the player decides when its loader could not open the recording
/// `id`: the recording is marked as paused, and where it was the loaded one,
/// nothing is loaded any more.
pub open spec fn player_load_failed(loaded: Option<Seq<char>>, id: Seq<char>) -> (
    Option<Seq<char>>,
    Seq<PlayerAction<Seq<char>>>,
) {
    (
        if loaded == Some(id) {
            None
        } else {
            loaded
        },
        seq![PlayerAction::Mark { id, playing: false }],
    )
}

/// The change that marks the recording `id`.
pub open spec fn mark(id: Seq<char>, playing: bool) -> UpdateView {
    UpdateView { id, filepath: None, is_playing: Some(playing), label: None }
}

/// The catalog after one action: a mark changes the marked recording, if the
/// catalog holds it, and no other action touches the catalog.
pub open spec fn catalog_after(
    catalog: Map<Seq<char>, AudioItemView>,
    action: PlayerAction<Seq<char>>,
) -> Map<Seq<char>, AudioItemView> {
    match action {
        PlayerAction::Mark { id, playing } => catalog_updated(catalog, mark(id, playing)),
        _ => catalog,
    }
}

/// The catalog after the first `n` of `actions`, taken in order.
pub open spec fn catalog_through(
    catalog: Map<Seq<char>, AudioItemView>,
    actions: Seq<PlayerAction<Seq<char>>>,
    n: int,
) -> Map<Seq<char>, AudioItemView>
    decreases n,
{
    if n <= 0 {
        catalog
    } else {
        catalog_after(catalog_through(catalog, actions, n - 1), actions[n - 1])
    }
}

/// The catalog after a list of actions, taken in order.
pub open spec fn catalog_after_all(
    catalog: Map<Seq<char>, AudioItemView>,
    actions: Seq<PlayerAction<Seq<char>>>,
) -> Map<Seq<char>, AudioItemView> {
    catalog_through(catalog, actions, actions.len() as int)
}

/// The catalog after the recording `id` has been marked.
pub open spec fn marked(
    catalog: Map<Seq<char>, AudioItemView>,
    id: Seq<char>,
    playing: bool,
) -> Map<Seq<char>, AudioItemView> {
    catalog_updated(catalog, mark(id, playing))
}

/// The player's own state: the id of the recording that the sink holds.
pub struct Player {
    loaded: Option<String>,
}

impl View for Player {
    type V = Option<Seq<char>>;

    closed spec fn view(&self) -> Option<Seq<char>> {
        text_of(self.loaded)
    }
}

impl Player {
    /// A player whose sink holds nothing.
    pub fn new() -> (player: Self)
        ensures
            player@ is None,
    {
        Player { loaded: None }
    }

    /// The id of the recording that the sink holds.
    pub fn loaded(&self) -> (id: Option<&str>)
        ensures
            self@ is Some <==> id is Some,
            id matches Some(text) ==> self@ == Some(text@),
    {
        match &self.loaded {
            Some(id) => Some(id.as_str()),
            None => None,
        }
    }

    /// Takes `command` and says what is to be done, in order.
    pub fn handle(&mut self, command: StreamControlCommand) -> (actions: Vec<PlayerAction<String>>)
        ensures
            (final(self)@, actions_view(actions@)) == player_step(old(self)@, command@),
    {
        let mut actions: Vec<PlayerAction<String>> = Vec::new();
        match command {
            StreamControlCommand::Play(id) => {
                let current = self.loaded.take();
                match current {
                    Some(current) => {
                        if current == id {
                            actions.push(PlayerAction::Mark { id: id.clone(), playing: true });
                            actions.push(PlayerAction::ResumeSink);
                        } else {
                            actions.push(PlayerAction::PauseSink);
                            actions.push(PlayerAction::StopSink);
                            actions.push(PlayerAction::ClearSink);
                            actions.push(PlayerAction::Mark { id: current, playing: false });
                            actions.push(PlayerAction::Mark { id: id.clone(), playing: true });
                            actions.push(PlayerAction::Load(id.clone()));
                            actions.push(PlayerAction::ResumeSink);
                        }
                    },
                    None => {
                        actions.push(PlayerAction::Mark { id: id.clone(), playing: true });
                        actions.push(PlayerAction::Load(id.clone()));
                        actions.push(PlayerAction::ResumeSink);
                    },
                }
                self.loaded = Some(id);
            },
            StreamControlCommand::Pause(Some(id)) => {
                actions.push(PlayerAction::PauseSink);
                actions.push(PlayerAction::Mark { id, playing: false });
            },
            StreamControlCommand::Pause(None) => {
                actions.push(PlayerAction::PauseSink);
            },
        }
        assert(actions_view(actions@) =~= player_step(old(self)@, command@).1);
        actions
    }

    /// Takes the loader's report of how far the sink has come with the track
    /// `id`, and says what is to be done.
    pub fn track_progress(&mut self, id: &str, progress: Progress) -> (actions: Vec<
        PlayerAction<String>,
    >)
        ensures
            (final(self)@, actions_view(actions@)) == player_progress(old(self)@, id@, progress),
    {
        let mut actions: Vec<PlayerAction<String>> = Vec::new();
        let ended = match progress.duration {
            Some(duration) => progress.position >= duration,
            None => progress.sink_empty,
        };
        if ended && self.holds(id) {
            self.loaded = None;
            actions.push(PlayerAction::Mark { id: id.to_owned(), playing: false });
        }
        assert(actions_view(actions@) =~= player_progress(old(self)@, id@, progress).1);
        actions
    }

    /// Takes the loader's report that the recording `id` could not be opened,
    /// and says what is to be done.
    pub fn load_failed(&mut self, id: &str) -> (actions: Vec<PlayerAction<String>>)
        ensures
            (final(self)@, actions_view(actions@)) == player_load_failed(old(self)@, id@),
    {
        let mut actions: Vec<PlayerAction<String>> = Vec::new();
        if self.holds(id) {
            self.loaded = None;
        }
        actions.push(PlayerAction::Mark { id: id.to_owned(), playing: false });
        assert(actions_view(actions@) =~= player_load_failed(old(self)@, id@).1);
        actions
    }

    /// Whether the sink holds the recording `id`.
    fn holds(&self, id: &str) -> (held: bool)
        ensures
            held == (self@ == Some(id@)),
    {
        match &self.loaded {
            Some(current) => crate::audio::order::rank(current.as_str(), id)
                == crate::audio::order::Rank::Same,
            None => false,
        }
    }
}

/// Does to the catalog what `action` asks of it, and hands out the document
/// that is to be written where the catalog has changed. A mark of a
/// recording that the catalog does not hold, and an action on the sink,
/// leave the catalog and its document as they are.
pub fn apply_to_catalog(db: &mut FSDatabase, action: &PlayerAction<String>) -> (document: Option<Data>)
    ensures
        final(db)@ == catalog_after(old(db)@, action@),
        document is Some <==> (action matches PlayerAction::Mark { id, .. } && old(db)@.contains_key(
            id@,
        )),
        document matches Some(data) ==> is_listing(data@, final(db)@),
        final(db).wav_dir_text() == old(db).wav_dir_text(),
        final(db).datafile_text() == old(db).datafile_text(),
{
    match action {
        PlayerAction::Mark { id, playing } => db.update_audio_items(
            UpdateParams { id: id.as_str(), filepath: None, is_playing: Some(*playing), label: None },
        ),
        _ => None,
    }
}

/// The number of loads among `actions`.
pub open spec fn loads(actions: Seq<PlayerAction<Seq<char>>>) -> nat
    decreases actions.len(),
{
    if actions.len() == 0 {
        0
    } else {
        loads(actions.drop_last()) + if actions.last() is Load {
            1nat
        } else {
            0nat
        }
    }
}

/// What the player holds, and all it was told to do, after a run of
/// commands.
pub open spec fn player_run(loaded: Option<Seq<char>>, commands: Seq<CommandView>) -> (
    Option<Seq<char>>,
    Seq<PlayerAction<Seq<char>>>,
)
    decreases commands.len(),
{
    if commands.len() == 0 {
        (loaded, Seq::empty())
    } else {
        let (before, done) = player_run(loaded, commands.drop_last());
        let (after, actions) = player_step(before, commands.last());
        (after, done + actions)
    }
}

/// `Play(id)`, `n` times over.
pub open spec fn repeated_play(id: Seq<char>, n: nat) -> Seq<CommandView> {
    Seq::new(n, |i: int| CommandView::Play(id))
}

/// The loads of two lists of actions add up.
pub proof fn lemma_loads_add(a: Seq<PlayerAction<Seq<char>>>, b: Seq<PlayerAction<Seq<char>>>)
    ensures
        loads(a + b) == loads(a) + loads(b),
    decreases b.len(),
{
    if b.len() == 0 {
        assert(a + b =~= a);
    } else {
        lemma_loads_add(a, b.drop_last());
        assert((a + b).drop_last() =~= a + b.drop_last());
    }
}

/// However often `Play(id)` is repeated with nothing in between, the
/// recording is loaded at most once, and not at all where the sink holds it
/// already. After the first `Play(id)` the sink holds `id`.
pub proof fn lemma_repeated_play_loads_once(loaded: Option<Seq<char>>, id: Seq<char>, n: nat)
    ensures
        loads(player_run(loaded, repeated_play(id, n)).1) <= 1,
        loaded == Some(id) ==> loads(player_run(loaded, repeated_play(id, n)).1) == 0,
        n > 0 ==> player_run(loaded, repeated_play(id, n)).0 == Some(id),
        n == 0 ==> player_run(loaded, repeated_play(id, n)).0 == loaded,
    decreases n,
{
    reveal_with_fuel(loads, 8);
    if n > 0 {
        let front = repeated_play(id, (n - 1) as nat);
        lemma_repeated_play_loads_once(loaded, id, (n - 1) as nat);
        assert(repeated_play(id, n).drop_last() =~= front);
        let (before, done) = player_run(loaded, front);
        let (after, actions) = player_step(before, CommandView::Play(id));
        lemma_loads_add(done, actions);
        if n == 1 {
            assert(done =~= Seq::empty());
        }
    }
}

/// What a command does to the catalog, all its actions taken together:
/// `Play` marks the recording as playing, after it has marked another one
/// that was loaded as paused; `Pause` marks the recording it names as
/// paused.
pub proof fn lemma_catalog_after_step(
    loaded: Option<Seq<char>>,
    catalog: Map<Seq<char>, AudioItemView>,
    command: CommandView,
)
    ensures
        catalog_after_all(catalog, player_step(loaded, command).1) == match command {
            CommandView::Play(id) => match loaded {
                Some(current) => if current == id {
                    marked(catalog, id, true)
                } else {
                    marked(marked(catalog, current, false), id, true)
                },
                None => marked(catalog, id, true),
            },
            CommandView::Pause(Some(id)) => marked(catalog, id, false),
            CommandView::Pause(None) => catalog,
        },
{
    reveal_with_fuel(catalog_through, 8);
}

/// A `Pause` for a recording that is not marked as playing, or that the
/// catalog does not hold, leaves the catalog as it is, and what the sink
/// holds.
pub proof fn lemma_pause_without_play(
    loaded: Option<Seq<char>>,
    catalog: Map<Seq<char>, AudioItemView>,
    pause: Option<Seq<char>>,
)
    requires
        pause matches Some(id) ==> !(catalog.contains_key(id) && catalog[id].is_playing),
    ensures
        catalog_after_all(catalog, player_step(loaded, CommandView::Pause(pause)).1) == catalog,
        player_step(loaded, CommandView::Pause(pause)).0 == loaded,
{
    lemma_catalog_after_step(loaded, catalog, CommandView::Pause(pause));
    if let Some(id) = pause {
        if catalog.contains_key(id) {
            assert(catalog.insert(id, catalog[id]) =~= catalog);
        }
    }
}

/// Every recording that is marked as playing is the one that the sink holds.
pub open spec fn only_loaded_plays(
    loaded: Option<Seq<char>>,
    catalog: Map<Seq<char>, AudioItemView>,
) -> bool {
    forall|id: Seq<char>| #[trigger]
        catalog.contains_key(id) && catalog[id].is_playing ==> loaded == Some(id)
}

/// While the player alone marks recordings, at most one recording is marked
/// as playing, and it is the one that the sink holds: whatever command comes
/// and whatever the loader reports.
pub proof fn lemma_only_the_loaded_plays(
    loaded: Option<Seq<char>>,
    catalog: Map<Seq<char>, AudioItemView>,
    command: CommandView,
    id: Seq<char>,
    progress: Progress,
)
    requires
        only_loaded_plays(loaded, catalog),
    ensures
        only_loaded_plays(
            player_step(loaded, command).0,
            catalog_after_all(catalog, player_step(loaded, command).1),
        ),
        only_loaded_plays(
            player_progress(loaded, id, progress).0,
            catalog_after_all(catalog, player_progress(loaded, id, progress).1),
        ),
        only_loaded_plays(
            player_load_failed(loaded, id).0,
            catalog_after_all(catalog, player_load_failed(loaded, id).1),
        ),
{
    lemma_catalog_after_step(loaded, catalog, command);
    reveal_with_fuel(catalog_through, 2);
}

} // verus!
