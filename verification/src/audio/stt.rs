//! Speech to text: the worker that turns gathered samples into a recording's
//! label.

use vstd::prelude::*;
use vstd::string::StringExecFns;

use crate::audio::database::{
    catalog_updated, well_keyed, Data, FSDatabase, UpdateParams, UpdateView,
};
use crate::audio::ecouter::recorded;
use crate::audio::item_map::is_listing;
use crate::audio::{new_item, AudioItem, AudioItemView};

pub mod listener;

verus! {

/// What the transcription engine is told before it is given the samples.
pub const PROMPT: &'static str =
    "[system]\n                                    Transcribe the first 24 words in the song that the user is singing.\n                                    [user]";

/// The samples of one session, to be transcribed.
#[derive(Debug)]
pub struct TranscriptionJob<T> {
    pub id: String,
    pub samples: Vec<T>,
}

/// The change that gives the recording `id` the label `text`.
pub open spec fn label_change(id: Seq<char>, text: Seq<char>) -> UpdateView {
    UpdateView { id, filepath: None, is_playing: None, label: Some(text) }
}

/// The catalog after the session `id` has been transcribed as `text`: the
/// recording filed under `id` carries the text as its label, and where none
/// was filed, a new recording with that label is.
pub open spec fn labelled(
    catalog: Map<Seq<char>, AudioItemView>,
    wav_dir: Seq<char>,
    id: Seq<char>,
    text: Seq<char>,
) -> Map<Seq<char>, AudioItemView> {
    if catalog.contains_key(id) {
        catalog_updated(catalog, label_change(id, text))
    } else {
        catalog.insert(id, AudioItemView { label: Some(text), ..new_item(id, wav_dir) })
    }
}

/// Files `transcript` as the label of the recording `id`, and files the
/// recording first where the catalog does not hold it. The document that is
/// to be written in place of the old one is handed out.
pub fn upsert_label(db: &mut FSDatabase, id: String, transcript: String) -> (document: Data)
    ensures
        final(db)@ == labelled(old(db)@, old(db).wav_dir_text(), id@, transcript@),
        is_listing(document@, final(db)@),
        final(db).wav_dir_text() == old(db).wav_dir_text(),
        final(db).datafile_text() == old(db).datafile_text(),
{
    let change = UpdateParams {
        id: id.as_str(),
        filepath: None,
        is_playing: None,
        label: Some(transcript.clone()),
    };
    match db.update_audio_items(change) {
        Some(document) => document,
        None => {
            let item = AudioItem::new_with_label(id, transcript, db.wav_dir());
            db.save_audio_item(item)
        },
    }
}

/// The recorder and the transcription worker may finish a session in either
/// order: whichever of them files the session's recording first, the catalog
/// is the same in the end, with the recording filed under its id and
/// labelled. Ids stay unique on the way.
pub proof fn lemma_flush_and_label_commute(
    catalog: Map<Seq<char>, AudioItemView>,
    wav_dir: Seq<char>,
    id: Seq<char>,
    text: Seq<char>,
)
    requires
        well_keyed(catalog),
    ensures
        labelled(recorded(catalog, wav_dir, id), wav_dir, id, text) == recorded(
            labelled(catalog, wav_dir, id, text),
            wav_dir,
            id,
        ),
        labelled(catalog, wav_dir, id, text).contains_key(id),
        labelled(catalog, wav_dir, id, text)[id].label == Some(text),
        well_keyed(labelled(catalog, wav_dir, id, text)),
        well_keyed(recorded(catalog, wav_dir, id)),
{
    let first = labelled(recorded(catalog, wav_dir, id), wav_dir, id, text);
    let second = recorded(labelled(catalog, wav_dir, id, text), wav_dir, id);
    assert(first =~= second);
}

/// The transcription worker's own state: whether a transcription runs.
pub struct Transcriber {
    busy: bool,
}

impl Transcriber {
    /// A worker that transcribes nothing yet.
    pub fn new() -> (worker: Self)
        ensures
            !worker.busy(),
    {
        Transcriber { busy: false }
    }

    /// Whether a transcription runs.
    pub closed spec fn busy(&self) -> bool {
        self.busy
    }

    /// Whether a transcription runs.
    pub fn is_transcribing(&self) -> (busy: bool)
        ensures
            busy == self.busy(),
    {
        self.busy
    }

    /// Takes a job and says whether it is to be transcribed: one without
    /// samples is passed over. From a job that is taken on until `finish`,
    /// the worker is busy.
    pub fn begin<T>(&mut self, job: &TranscriptionJob<T>) -> (taken: bool)
        ensures
            taken == (job.samples@.len() > 0),
            final(self).busy() == (old(self).busy() || taken),
    {
        if job.samples.len() == 0 {
            false
        } else {
            self.busy = true;
            true
        }
    }

    /// Takes the text that the engine made of the session `id`, and files it
    /// as the label of the session's recording. The worker is busy no more.
    /// The document that is to be written in place of the old one is handed
    /// out.
    pub fn finish(&mut self, db: &mut FSDatabase, id: String, transcript: String) -> (document: Data)
        ensures
            !final(self).busy(),
            final(db)@ == labelled(old(db)@, old(db).wav_dir_text(), id@, transcript@),
            is_listing(document@, final(db)@),
            final(db).wav_dir_text() == old(db).wav_dir_text(),
            final(db).datafile_text() == old(db).datafile_text(),
    {
        self.busy = false;
        upsert_label(db, id, transcript)
    }
}

/// The texts of `segments`, one after the other.
pub open spec fn segments_text(segments: Seq<String>) -> Seq<char>
    decreases segments.len(),
{
    if segments.len() == 0 {
        Seq::empty()
    } else {
        segments_text(segments.drop_last()) + segments.last()@
    }
}

/// The transcript: the text of the segments that the engine found, one
/// after the other.
pub fn join_segments(segments: &Vec<String>) -> (text: String)
    ensures
        text@ == segments_text(segments@),
{
    let mut text = String::new();
    let mut i: usize = 0;
    while i < segments.len()
        invariant
            i <= segments@.len(),
            text@ == segments_text(segments@.subrange(0, i as int)),
        decreases segments@.len() - i,
    {
        text.append(segments[i].as_str());
        i += 1;
        assert(segments@.subrange(0, i as int).drop_last() =~= segments@.subrange(0, i - 1));
    }
    assert(segments@.subrange(0, i as int) =~= segments@);
    text
}

/// One channel of a recording in which the samples of two channels take
/// turns: the samples at the even places.
pub open spec fn first_channel<T>(buffer: Seq<T>) -> Seq<T> {
    Seq::new((buffer.len() + 1) / 2, |i: int| buffer[2 * i])
}

/// Keeps the first of every two samples, on the assumption that both
/// channels of the recording carry the same signal.
pub fn stereo_to_mono<T: Copy>(buffer: &[T]) -> (mono: Vec<T>)
    ensures
        mono@ == first_channel(buffer@),
{
    let mut mono: Vec<T> = Vec::new();
    let mut i: usize = 0;
    while i < buffer.len()
        invariant_except_break
            i % 2 == 0,
            i <= buffer@.len(),
            mono@.len() == i / 2,
        invariant
            forall|j: int| 0 <= j < mono@.len() ==> mono@[j] == buffer@[2 * j],
        ensures
            mono@.len() == (buffer@.len() + 1) / 2,
        decreases buffer@.len() - i,
    {
        mono.push(buffer[i]);
        if buffer.len() - i < 2 {
            break ;
        }
        i += 2;
    }
    assert(mono@ =~= first_channel(buffer@));
    mono
}

} // verus!
