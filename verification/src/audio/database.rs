//! The catalog: every recording under its id, and the document that persists
//! them. The catalog itself never touches a file: it takes what was read from
//! its document and hands out what is to be written there.

use vstd::prelude::*;

use crate::audio::format::{SampleFormat, StreamConfig, WavSpec};
use crate::audio::item_map::{
    as_map, entries_view, is_listing, items_of, lemma_listing_exists, listing_of, EntryView,
    ItemMap,
};
use crate::audio::paths::wav_file;
use crate::audio::{new_item, text_of, AudioItem, AudioItemView};

verus! {

/// The content of the persisted document: recordings filed under keys, in the
/// order in which the document names them.
pub struct Data {
    items: Vec<(String, AudioItem)>,
}

impl View for Data {
    type V = Seq<EntryView>;

    closed spec fn view(&self) -> Seq<EntryView> {
        entries_view(self.items@)
    }
}

impl Data {
    /// The document that names `items`, in their order.
    pub fn new(items: Vec<(String, AudioItem)>) -> (data: Self)
        ensures
            data@ == entries_view(items@),
    {
        Data { items }
    }

    /// The document that names no recording.
    pub fn empty() -> (data: Self)
        ensures
            data@ == Seq::<EntryView>::empty(),
    {
        let data = Data { items: Vec::new() };
        assert(data@ =~= Seq::<EntryView>::empty());
        data
    }

    /// The entries that the document names, in its order.
    pub fn into_items(self) -> (items: Vec<(String, AudioItem)>)
        ensures
            entries_view(items@) == self@,
    {
        self.items
    }
}

/// What reading the catalog's document gave.
pub enum Document {
    /// There is no document.
    Missing,
    /// There is one, and it cannot be read as a catalog; the reason is kept.
    Corrupt(String),
    /// The document's content.
    Parsed(Data),
}

/// The catalog: the recordings in memory, each filed under its id.
pub struct FSDatabase {
    wav_dir: String,
    datafile: String,
    items: ItemMap,
}

impl View for FSDatabase {
    type V = Map<Seq<char>, AudioItemView>;

    closed spec fn view(&self) -> Map<Seq<char>, AudioItemView> {
        self.items@
    }
}

/// A change to one recording. A field that is `None` leaves that part of the
/// recording as it is.
pub struct UpdateParams<'i> {
    pub id: &'i str,
    pub filepath: Option<&'i str>,
    pub is_playing: Option<bool>,
    pub label: Option<String>,
}

/// What a change asks for, as plain text.
pub struct UpdateView {
    pub id: Seq<char>,
    pub filepath: Option<Seq<char>>,
    pub is_playing: Option<bool>,
    pub label: Option<Seq<char>>,
}

impl<'i> View for UpdateParams<'i> {
    type V = UpdateView;

    open spec fn view(&self) -> UpdateView {
        UpdateView {
            id: self.id@,
            filepath: match self.filepath {
                Some(path) => Some(path@),
                None => None,
            },
            is_playing: self.is_playing,
            label: text_of(self.label),
        }
    }
}

/// The recording `item` after the change `change`.
pub open spec fn updated(item: AudioItemView, change: UpdateView) -> AudioItemView {
    AudioItemView {
        id: item.id,
        label: if change.label is Some {
            change.label
        } else {
            item.label
        },
        filepath: match change.filepath {
            Some(path) => path,
            None => item.filepath,
        },
        is_playing: match change.is_playing {
            Some(playing) => playing,
            None => item.is_playing,
        },
    }
}

/// The catalog `catalog` after the change `change`: the recording filed under
/// the change's id is changed, and a catalog without it stays as it is.
pub open spec fn catalog_updated(
    catalog: Map<Seq<char>, AudioItemView>,
    change: UpdateView,
) -> Map<Seq<char>, AudioItemView> {
    if catalog.contains_key(change.id) {
        catalog.insert(change.id, updated(catalog[change.id], change))
    } else {
        catalog
    }
}

/// What `get_or_create` hands out for `id`: the recording filed under it, or
/// a new one stored below `wav_dir`.
pub open spec fn found_or_new(
    catalog: Map<Seq<char>, AudioItemView>,
    wav_dir: Seq<char>,
    id: Seq<char>,
) -> AudioItemView {
    if catalog.contains_key(id) {
        catalog[id]
    } else {
        new_item(id, wav_dir)
    }
}

/// The catalog that a document holds.
pub open spec fn loaded(document: Document) -> Seq<EntryView> {
    match document {
        Document::Parsed(data) => data@,
        _ => Seq::empty(),
    }
}

/// Every recording is filed under its own id, so that no two recordings of
/// the catalog share an id.
pub open spec fn well_keyed(catalog: Map<Seq<char>, AudioItemView>) -> bool {
    forall|key: Seq<char>| #[trigger] catalog.contains_key(key) ==> catalog[key].id == key
}

/// Ids stay unique: a catalog in which every recording is filed under its
/// own id is still one after a recording has been saved, changed or taken
/// out, and what `get_or_create` hands out for an id carries that id.
pub proof fn lemma_ids_stay_unique(
    catalog: Map<Seq<char>, AudioItemView>,
    item: AudioItemView,
    change: UpdateView,
    id: Seq<char>,
    wav_dir: Seq<char>,
)
    requires
        well_keyed(catalog),
    ensures
        well_keyed(catalog.insert(item.id, item)),
        well_keyed(catalog_updated(catalog, change)),
        well_keyed(catalog.remove(id)),
        found_or_new(catalog, wav_dir, id).id == id,
        well_keyed(Map::<Seq<char>, AudioItemView>::empty()),
{
}

/// The document that a catalog persists, loaded again, is the catalog: the
/// same ids, and under each id the same recording, label and all.
pub proof fn lemma_reload_restores(catalog: Map<Seq<char>, AudioItemView>)
    requires
        catalog.dom().finite(),
    ensures
        is_listing(listing_of(catalog), catalog),
        as_map(listing_of(catalog)) == catalog,
        forall|id: Seq<char>|
            catalog.contains_key(id) <==> #[trigger] as_map(listing_of(catalog)).contains_key(id),
        forall|id: Seq<char>| #[trigger]
            catalog.contains_key(id) ==> as_map(listing_of(catalog))[id].label == catalog[id].label,
{
    lemma_listing_exists(catalog);
}

/// The header under which samples of the stream `config` are stored: the
/// stream's channels and rate, 32 bits to a sample, floating point.
pub fn wav_spec_from(config: &StreamConfig) -> (spec: WavSpec)
    ensures
        spec == (WavSpec {
            channels: config.channels,
            sample_rate: config.sample_rate,
            bits_per_sample: 32,
            sample_format: SampleFormat::Float,
        }),
{
    WavSpec {
        channels: config.channels,
        sample_rate: config.sample_rate,
        bits_per_sample: 32,
        sample_format: SampleFormat::Float,
    }
}

impl FSDatabase {
    /// The directory below which recordings are stored.
    pub closed spec fn wav_dir_text(&self) -> Seq<char> {
        self.wav_dir@
    }

    /// The location of the document.
    pub closed spec fn datafile_text(&self) -> Seq<char> {
        self.datafile@
    }

    /// The catalog that `document` holds. A document that is missing or that
    /// cannot be read gives the empty catalog.
    pub fn new(wav_dir: String, datafile: String, document: Document) -> (db: Self)
        ensures
            db@ == as_map(loaded(document)),
            db.wav_dir_text() == wav_dir@,
            db.datafile_text() == datafile@,
    {
        let data = match document {
            Document::Parsed(data) => data,
            _ => Data::empty(),
        };
        let ghost whole = data@;
        let mut entries = data.into_items();
        let mut items = ItemMap::new();
        // The entries are filed from the last one down, and an entry whose key
        // is filed already is passed over: so the later of two entries stays.
        while entries.len() > 0
            invariant
                entries_view(entries@) == whole.subrange(0, entries@.len() as int),
                entries@.len() <= whole.len(),
                forall|key: Seq<char>|
                    as_map(whole).contains_key(key) <==> (#[trigger] items@.contains_key(key)
                        || as_map(entries_view(entries@)).contains_key(key)),
                forall|key: Seq<char>| #[trigger]
                    items@.contains_key(key) ==> as_map(whole)[key] == items@[key],
                forall|key: Seq<char>|
                    !items@.contains_key(key) && #[trigger] as_map(
                        entries_view(entries@),
                    ).contains_key(key) ==> as_map(whole)[key] == as_map(entries_view(entries@))[key],
            decreases entries@.len(),
        {
            let ghost before = entries_view(entries@);
            let entry = entries.pop();
            proof {
                assert(entries_view(entries@) =~= before.drop_last());
                assert(entries_view(entries@) =~= whole.subrange(0, entries@.len() as int));
            }
            match entry {
                Some((key, item)) => {
                    assert(before.last() == (key@, item@));
                    if items.get(key.as_str()).is_none() {
                        items.insert(key, item);
                    }
                },
                None => {},
            }
        }
        proof {
            assert(entries_view(entries@) =~= Seq::<EntryView>::empty());
            assert(items@ =~= as_map(whole));
        }
        FSDatabase { wav_dir, datafile, items }
    }

    /// What is to be done with what reading the document gave: a missing
    /// document stands for the empty catalog, one that cannot be read is an
    /// error.
    pub fn load_all(document: Document) -> (result: Result<Data, String>)
        ensures
            match document {
                Document::Missing => result matches Ok(data) && data@ == Seq::<EntryView>::empty(),
                Document::Corrupt(reason) => result == Err::<Data, String>(reason),
                Document::Parsed(data) => result == Ok::<Data, String>(data),
            },
    {
        match document {
            Document::Missing => Ok(Data::empty()),
            Document::Corrupt(reason) => Err(reason),
            Document::Parsed(data) => Ok(data),
        }
    }

    /// The directory below which recordings are stored.
    pub fn wav_dir(&self) -> (dir: &str)
        ensures
            dir@ == self.wav_dir_text(),
    {
        self.wav_dir.as_str()
    }

    /// The location of the document.
    pub fn datafile(&self) -> (path: &str)
        ensures
            path@ == self.datafile_text(),
    {
        self.datafile.as_str()
    }

    /// The recording filed under `id`, or a new one for `id` where there is
    /// none. The catalog stays as it is.
    pub fn get_or_create(&self, id: &str) -> (item: AudioItem)
        ensures
            item@ == found_or_new(self@, self.wav_dir_text(), id@),
    {
        match self.items.get(id) {
            Some(item) => item.clone(),
            None => AudioItem::new(id.to_owned(), self.wav_dir.as_str()),
        }
    }

    /// The number of recordings.
    pub fn len(&self) -> (n: usize)
        ensures
            self@.dom().finite(),
            n == self@.len(),
    {
        self.items.len()
    }

    /// Whether a recording is filed under `id`.
    pub fn contains(&self, id: &str) -> (found: bool)
        ensures
            found == self@.contains_key(id@),
    {
        self.items.get(id).is_some()
    }

    /// The recordings in the order of their keys.
    pub fn items(&self) -> (items: Vec<AudioItem>)
        ensures
            items@.map_values(|item: AudioItem| item@) == items_of(self@),
            is_listing(listing_of(self@), self@),
    {
        self.items.values()
    }

    /// Takes the recording filed under `id` out of the catalog, and hands out
    /// the document that is to be written in place of the old one.
    pub fn remove_item(&mut self, id: String) -> (document: Data)
        ensures
            final(self)@ == old(self)@.remove(id@),
            is_listing(document@, final(self)@),
            final(self).wav_dir_text() == old(self).wav_dir_text(),
            final(self).datafile_text() == old(self).datafile_text(),
    {
        self.items.remove(id.as_str());
        self.data()
    }

    /// Files `item` under its id, in place of what was filed there, and
    /// hands out the document that is to be written in place of the old one.
    pub fn save_audio_item(&mut self, item: AudioItem) -> (document: Data)
        ensures
            final(self)@ == old(self)@.insert(item.id@, item@),
            is_listing(document@, final(self)@),
            final(self).wav_dir_text() == old(self).wav_dir_text(),
            final(self).datafile_text() == old(self).datafile_text(),
    {
        self.items.insert(item.id.clone(), item);
        self.data()
    }

    /// Changes the recording filed under `params.id`, and hands out the
    /// document that is to be written in place of the old one. A catalog
    /// that does not hold the recording stays as it is, and so does its
    /// document: `None` comes back.
    pub fn update_audio_items(&mut self, params: UpdateParams) -> (document: Option<Data>)
        ensures
            document is Some <==> old(self)@.contains_key(params.id@),
            final(self)@ == catalog_updated(old(self)@, params@),
            document matches Some(data) ==> is_listing(data@, final(self)@),
            final(self).wav_dir_text() == old(self).wav_dir_text(),
            final(self).datafile_text() == old(self).datafile_text(),
    {
        let ghost change = params@;
        let current = match self.items.get(params.id) {
            Some(item) => item.clone(),
            None => {
                return None;
            },
        };
        let item = AudioItem {
            id: current.id,
            label: match params.label {
                Some(text) => Some(text),
                None => current.label,
            },
            filepath: match params.filepath {
                Some(path) => path.to_owned(),
                None => current.filepath,
            },
            is_playing: match params.is_playing {
                Some(playing) => playing,
                None => current.is_playing,
            },
        };
        assert(item@ == updated(old(self)@[change.id], change));
        self.items.insert(params.id.to_owned(), item);
        Some(self.data())
    }

    /// The document that holds this catalog: its entries in key order.
    pub fn data(&self) -> (data: Data)
        ensures
            data@ == listing_of(self@),
            is_listing(data@, self@),
    {
        Data::new(self.items.entries())
    }

    /// Where the samples of `item` are stored.
    pub fn wav_path(&self, item: &AudioItem) -> (path: String)
        ensures
            path@ == crate::audio::paths::wav_location(self.wav_dir_text(), item.id@),
    {
        wav_file(self.wav_dir.as_str(), item.id.as_str())
    }
}

} // verus!
