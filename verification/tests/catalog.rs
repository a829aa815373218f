use voechoal::audio::database::{wav_spec_from, Data, Document, FSDatabase, UpdateParams};
use voechoal::audio::format::{BufferSize, SampleFormat, StreamConfig, WavSpec};
use voechoal::audio::polling::RecordingsPoll;
use voechoal::audio::save::WavWriter;
use voechoal::audio::AudioItem;

fn empty_db() -> FSDatabase {
    FSDatabase::new("/tmp/voechoal".to_string(), "/tmp/voechoal/data.json".to_string(), Document::Missing)
}

fn item(id: &str, label: Option<&str>, playing: bool) -> AudioItem {
    AudioItem {
        id: id.to_string(),
        label: label.map(|text| text.to_string()),
        filepath: format!("/tmp/voechoal/{id}.wav"),
        is_playing: playing,
    }
}

#[test]
fn new_item_is_unlabelled_and_stored_under_its_id() {
    let made = AudioItem::new("r1".to_string(), "/tmp/voechoal");
    assert_eq!(
        made,
        AudioItem { id: "r1".to_string(), label: None, filepath: "/tmp/voechoal/r1.wav".to_string(), is_playing: false }
    );
}

#[test]
fn new_item_with_label_carries_it() {
    let made = AudioItem::new_with_label("r1".to_string(), "la la".to_string(), "/tmp/voechoal");
    assert_eq!(
        made,
        AudioItem {
            id: "r1".to_string(),
            label: Some("la la".to_string()),
            filepath: "/tmp/voechoal/r1.wav".to_string(),
            is_playing: false,
        }
    );
}

#[test]
fn clone_keeps_every_field() {
    let first = item("r1", Some("x"), true);
    assert_eq!(first.clone(), first);
}

#[test]
fn missing_document_is_the_empty_catalog() {
    let db = empty_db();
    assert!(db.items().is_empty());
    assert_eq!(db.wav_dir(), "/tmp/voechoal");
    assert_eq!(db.datafile(), "/tmp/voechoal/data.json");
}

#[test]
fn corrupt_document_is_the_empty_catalog() {
    let db = FSDatabase::new("d".to_string(), "f".to_string(), Document::Corrupt("expected value at line 1".to_string()));
    assert!(db.items().is_empty());
}

#[test]
fn load_all_tells_missing_from_corrupt() {
    assert!(FSDatabase::load_all(Document::Missing).unwrap().into_items().is_empty());
    assert_eq!(
        FSDatabase::load_all(Document::Corrupt("expected value".to_string())).err(),
        Some("expected value".to_string())
    );
    let parsed = FSDatabase::load_all(Document::Parsed(Data::new(vec![("a".to_string(), item("a", None, false))])));
    assert_eq!(parsed.unwrap().into_items(), vec![("a".to_string(), item("a", None, false))]);
}

#[test]
fn items_come_in_key_order() {
    let mut db = empty_db();
    db.save_audio_item(item("b", None, false));
    db.save_audio_item(item("a", Some("first"), false));
    db.save_audio_item(item("c", None, true));
    assert_eq!(db.items(), vec![item("a", Some("first"), false), item("b", None, false), item("c", None, true)]);
}

#[test]
fn saving_twice_keeps_the_later_item() {
    let mut db = empty_db();
    db.save_audio_item(item("a", None, false));
    db.save_audio_item(item("a", Some("again"), true));
    assert_eq!(db.items(), vec![item("a", Some("again"), true)]);
    assert_eq!(db.len(), 1);
    db.save_audio_item(item("b", None, false));
    assert_eq!(db.len(), 2);
}

#[test]
fn get_or_create_finds_what_is_filed() {
    let mut db = empty_db();
    db.save_audio_item(item("a", Some("x"), true));
    assert_eq!(db.get_or_create("a"), item("a", Some("x"), true));
}

#[test]
fn get_or_create_makes_a_new_item_and_files_nothing() {
    let db = empty_db();
    assert_eq!(
        db.get_or_create("fresh"),
        AudioItem {
            id: "fresh".to_string(),
            label: None,
            filepath: "/tmp/voechoal/fresh.wav".to_string(),
            is_playing: false,
        }
    );
    assert!(db.items().is_empty());
    assert!(!db.contains("fresh"));
    assert_eq!(db.len(), 0);
}

#[test]
fn remove_item_takes_one_out() {
    let mut db = empty_db();
    db.save_audio_item(item("a", None, false));
    db.save_audio_item(item("b", None, false));
    db.remove_item("a".to_string());
    assert_eq!(db.items(), vec![item("b", None, false)]);
    db.remove_item("zz".to_string());
    assert_eq!(db.items(), vec![item("b", None, false)]);
}

#[test]
fn update_changes_only_what_is_given() {
    let mut db = empty_db();
    db.save_audio_item(item("a", Some("old"), false));
    let document = db.update_audio_items(UpdateParams { id: "a", filepath: None, is_playing: Some(true), label: None });
    assert_eq!(document.unwrap().into_items(), vec![("a".to_string(), item("a", Some("old"), true))]);
    assert_eq!(db.items(), vec![item("a", Some("old"), true)]);
    let document = db.update_audio_items(UpdateParams {
        id: "a",
        filepath: Some("/elsewhere/a.wav"),
        is_playing: None,
        label: Some("new".to_string()),
    });
    assert!(document.is_some());
    assert_eq!(
        db.items(),
        vec![AudioItem {
            id: "a".to_string(),
            label: Some("new".to_string()),
            filepath: "/elsewhere/a.wav".to_string(),
            is_playing: true,
        }]
    );
}

#[test]
fn update_of_an_unknown_id_changes_nothing() {
    let mut db = empty_db();
    db.save_audio_item(item("a", None, false));
    let document = db.update_audio_items(UpdateParams { id: "b", filepath: None, is_playing: Some(true), label: Some("x".to_string()) });
    assert!(document.is_none());
    assert_eq!(db.items(), vec![item("a", None, false)]);
}

#[test]
fn persisted_recordings_come_back_with_ids_and_labels() {
    let mut db = empty_db();
    let ids = ["n5", "n1", "n4", "n2", "n3"];
    for (i, id) in ids.iter().enumerate() {
        let label = format!("label {i}");
        db.save_audio_item(item(id, if i % 2 == 0 { Some(label.as_str()) } else { None }, false));
    }
    let document = db.data();
    let reloaded = FSDatabase::new("/tmp/voechoal".to_string(), "/tmp/voechoal/data.json".to_string(), Document::Parsed(document));
    assert_eq!(reloaded.items(), db.items());
    let mut found: Vec<(String, Option<String>)> = Vec::new();
    for r in reloaded.items() {
        found.push((r.id, r.label));
    }
    assert_eq!(
        found,
        vec![
            ("n1".to_string(), None),
            ("n2".to_string(), None),
            ("n3".to_string(), Some("label 4".to_string())),
            ("n4".to_string(), Some("label 2".to_string())),
            ("n5".to_string(), Some("label 0".to_string())),
        ]
    );
}

#[test]
fn every_change_hands_out_the_whole_document() {
    let mut db = empty_db();
    let first = db.save_audio_item(item("b", None, false));
    assert_eq!(first.into_items(), vec![("b".to_string(), item("b", None, false))]);
    let second = db.save_audio_item(item("a", None, false));
    assert_eq!(
        second.into_items(),
        vec![("a".to_string(), item("a", None, false)), ("b".to_string(), item("b", None, false))]
    );
    let third = db.remove_item("b".to_string());
    assert_eq!(third.into_items(), vec![("a".to_string(), item("a", None, false))]);
    assert_eq!(db.data().into_items(), vec![("a".to_string(), item("a", None, false))]);
}

#[test]
fn document_lists_entries_in_key_order() {
    let mut db = empty_db();
    db.save_audio_item(item("b", None, false));
    db.save_audio_item(item("a", None, false));
    assert_eq!(
        db.data().into_items(),
        vec![("a".to_string(), item("a", None, false)), ("b".to_string(), item("b", None, false))]
    );
}

#[test]
fn of_two_entries_with_one_key_the_later_stays() {
    let document = Data::new(vec![
        ("k".to_string(), item("k", Some("early"), false)),
        ("a".to_string(), item("a", None, false)),
        ("k".to_string(), item("k", Some("late"), true)),
    ]);
    let db = FSDatabase::new("d".to_string(), "f".to_string(), Document::Parsed(document));
    assert_eq!(db.items(), vec![item("a", None, false), item("k", Some("late"), true)]);
}

#[test]
fn an_entry_is_found_under_its_key_not_under_its_id() {
    let document = Data::new(vec![("key".to_string(), item("other", None, false))]);
    let mut db = FSDatabase::new("d".to_string(), "f".to_string(), Document::Parsed(document));
    assert!(db.contains("key"));
    assert!(!db.contains("other"));
    assert!(db.update_audio_items(UpdateParams { id: "key", filepath: None, is_playing: Some(true), label: None }).is_some());
    assert_eq!(db.items(), vec![item("other", None, true)]);
}

#[test]
fn wav_path_goes_by_the_id() {
    let db = empty_db();
    let moved =
        AudioItem { id: "r9".to_string(), label: None, filepath: "/elsewhere/x.wav".to_string(), is_playing: false };
    assert_eq!(db.wav_path(&moved), "/tmp/voechoal/r9.wav");
}

#[test]
fn wav_spec_is_32_bit_float() {
    let config = StreamConfig { channels: 2, sample_rate: 44100, buffer_size: BufferSize::Default };
    assert_eq!(
        wav_spec_from(&config),
        WavSpec { channels: 2, sample_rate: 44100, bits_per_sample: 32, sample_format: SampleFormat::Float }
    );
}

#[test]
fn poll_lists_the_catalog_and_the_flag() {
    let mut db = empty_db();
    db.save_audio_item(item("b", None, false));
    db.save_audio_item(item("a", None, true));
    let poll = RecordingsPoll::poll(&db, true);
    assert!(poll.is_transcribing);
    assert_eq!(poll.audio_items, vec![item("a", None, true), item("b", None, false)]);
    assert!(!RecordingsPoll::poll(&db, false).is_transcribing);
}

#[test]
fn writer_stores_32_bit_float_under_new_ids() {
    let config = StreamConfig { channels: 1, sample_rate: 16000, buffer_size: BufferSize::Fixed(80000) };
    let writer = WavWriter::setup(&config, "/tmp/voechoal".to_string());
    assert_eq!(
        writer.spec(),
        WavSpec { channels: 1, sample_rate: 16000, bits_per_sample: 32, sample_format: SampleFormat::Float }
    );
    let (id, path) = writer.next_file();
    assert!(cuid2::is_cuid2(&id));
    assert_eq!(path, format!("/tmp/voechoal/{id}.wav"));
    let (other, _) = writer.next_file();
    assert_ne!(id, other);
}

#[test]
fn empty_document_names_nothing() {
    assert!(Data::empty().into_items().is_empty());
    assert!(Data::new(vec![]).into_items().is_empty());
}
