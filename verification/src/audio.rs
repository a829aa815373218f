//! The catalog of recordings and the pipelines that fill and play it.

use vstd::prelude::*;

pub mod database;
pub mod ecouter;
pub mod format;
pub mod item_map;
pub mod order;
pub mod paths;
pub mod player;
pub mod polling;
pub mod save;
pub mod stt;

verus! {

/// A command to one of the pipelines. Each pipeline reads it in its own way.
#[derive(Debug, PartialEq, Eq)]
pub enum StreamControlCommand {
    /// Start the session or the playback of the recording with this id.
    Play(String),
    /// Stop; the player also marks the named recording as paused.
    Pause(Option<String>),
}

/// What a command says, as plain text.
pub enum CommandView {
    Play(Seq<char>),
    Pause(Option<Seq<char>>),
}

impl View for StreamControlCommand {
    type V = CommandView;

    open spec fn view(&self) -> CommandView {
        match self {
            StreamControlCommand::Play(id) => CommandView::Play(id@),
            StreamControlCommand::Pause(Some(id)) => CommandView::Pause(Some(id@)),
            StreamControlCommand::Pause(None) => CommandView::Pause(None),
        }
    }
}

/// The text that an optional string holds.
pub open spec fn text_of(text: Option<String>) -> Option<Seq<char>> {
    match text {
        Some(text) => Some(text@),
        None => None,
    }
}

/// One recording of the catalog.
#[derive(Debug, PartialEq, Eq)]
pub struct AudioItem {
    pub id: String,
    pub label: Option<String>,
    pub filepath: String,
    pub is_playing: bool,
}

/// What a recording holds, as plain text.
pub struct AudioItemView {
    pub id: Seq<char>,
    pub label: Option<Seq<char>>,
    pub filepath: Seq<char>,
    pub is_playing: bool,
}

impl View for AudioItem {
    type V = AudioItemView;

    open spec fn view(&self) -> AudioItemView {
        AudioItemView {
            id: self.id@,
            label: text_of(self.label),
            filepath: self.filepath@,
            is_playing: self.is_playing,
        }
    }
}

/// The recording that `AudioItem::new` makes for `id` when recordings are
/// stored below `dir`: unlabelled, not playing, stored where its id says.
pub open spec fn new_item(id: Seq<char>, dir: Seq<char>) -> AudioItemView {
    AudioItemView { id, label: None, filepath: paths::wav_location(dir, id), is_playing: false }
}

impl Clone for AudioItem {
    fn clone(&self) -> (copy: Self)
        ensures
            copy@ == self@,
    {
        AudioItem {
            id: self.id.clone(),
            label: match &self.label {
                Some(text) => Some(text.clone()),
                None => None,
            },
            filepath: self.filepath.clone(),
            is_playing: self.is_playing,
        }
    }
}

impl AudioItem {
    /// A recording that has no label yet and is not playing, stored below
    /// `wav_dir` under its id.
    pub fn new(id: String, wav_dir: &str) -> (item: Self)
        ensures
            item@ == new_item(id@, wav_dir@),
    {
        let filepath = paths::wav_file(wav_dir, id.as_str());
        AudioItem { filepath, id, label: None, is_playing: false }
    }

    /// A new recording that carries `label` from the start.
    pub fn new_with_label(id: String, label: String, wav_dir: &str) -> (item: Self)
        ensures
            item@ == (AudioItemView { label: Some(label@), ..new_item(id@, wav_dir@) }),
    {
        let mut s = Self::new(id, wav_dir);
        s.label = Some(label);
        s
    }
}

} // verus!
