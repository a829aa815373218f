//! What a poll of the engine answers.

use vstd::prelude::*;

use crate::audio::database::FSDatabase;
use crate::audio::item_map::{is_listing, items_of, listing_of};
use crate::audio::AudioItem;

verus! {

/// The state of the engine at one moment: every recording of the catalog,
/// and whether a transcription runs.
#[derive(Debug)]
pub struct RecordingsPoll {
    pub is_transcribing: bool,
    pub audio_items: Vec<AudioItem>,
}

impl RecordingsPoll {
    /// The recordings of `db` in the order of their keys, beside the
    /// transcription worker's word on whether it is busy.
    pub fn poll(db: &FSDatabase, is_transcribing: bool) -> (poll: Self)
        ensures
            poll.is_transcribing == is_transcribing,
            poll.audio_items@.map_values(|item: AudioItem| item@) == items_of(db@),
            is_listing(listing_of(db@), db@),
    {
        RecordingsPoll { audio_items: db.items(), is_transcribing }
    }
}

} // verus!
