use voechoal::audio::order::{rank, Rank};
use voechoal::audio::paths::{app_dir, audio_items_data_file, file_in, wav_file};

#[test]
fn wav_file_lies_in_the_directory_under_its_id() {
    assert_eq!(wav_file("/home/ana/voechoal", "tz4a98xxat96iws9zmbrgj3a"), "/home/ana/voechoal/tz4a98xxat96iws9zmbrgj3a.wav");
}

#[test]
fn wav_file_replaces_an_extension_that_the_id_brings() {
    assert_eq!(wav_file("/tmp/rec", "take.one"), "/tmp/rec/take.wav");
}

#[test]
fn wav_file_of_an_absolute_id_leaves_the_directory() {
    assert_eq!(wav_file("/tmp/rec", "/var/x"), "/var/x.wav");
}

#[test]
fn data_file_is_data_json() {
    assert_eq!(audio_items_data_file("/home/ana/voechoal"), "/home/ana/voechoal/data.json");
}

#[test]
fn app_dir_lies_under_home() {
    assert_eq!(app_dir("/home/ana"), "/home/ana/voechoal");
    assert_eq!(app_dir("/home/ana/"), "/home/ana/voechoal");
}

#[test]
fn file_in_joins_and_sets_the_extension() {
    assert_eq!(file_in("a/b", "c", "txt"), "a/b/c.txt");
    assert_eq!(file_in("", "c", "txt"), "c.txt");
    assert_ne!(file_in("a", "c", "txt"), "a");
}

#[test]
fn rank_orders_by_bytes() {
    assert_eq!(rank("a", "b"), Rank::Before);
    assert_eq!(rank("b", "a"), Rank::After);
    assert_eq!(rank("abc", "abc"), Rank::Same);
    assert_eq!(rank("", ""), Rank::Same);
    assert_eq!(rank("", "a"), Rank::Before);
    assert_eq!(rank("ab", "abc"), Rank::Before);
    assert_eq!(rank("abd", "abc"), Rank::After);
    assert_eq!(rank("Z", "a"), Rank::Before);
    assert_eq!(rank("\u{e9}", "z"), Rank::After);
    assert_eq!(rank("\u{1f600}", "\u{e9}"), Rank::After);
}

#[test]
fn rank_agrees_with_the_order_of_str() {
    let texts = ["", "a", "ab", "abc", "b", "B", "0", "\u{e9}", "\u{e9}a", "\u{4e2d}", "z", "zz", "\u{1f600}"];
    for a in texts.iter() {
        for b in texts.iter() {
            let expected = if a < b {
                Rank::Before
            } else if a == b {
                Rank::Same
            } else {
                Rank::After
            };
            assert_eq!(rank(a, b), expected);
        }
    }
}
