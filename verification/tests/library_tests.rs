use fuskyom::library::{
    arrange_listing, audio_files_in, is_audio_extension, is_audio_file, is_listed_extension,
    sort_by_name, Entry,
};

fn item(path: &str, name: &str, is_dir: bool) -> Entry {
    Entry { path: path.to_string(), name: name.to_string(), is_dir }
}

fn names(v: &[Entry]) -> Vec<String> {
    v.iter().map(|e| e.name.clone()).collect()
}

#[test]
fn audio_files_are_recognised_by_extension() {
    assert!(is_audio_file("song.mp3"));
    assert!(is_audio_file("/music/a/Song.FLAC"));
    assert!(is_audio_file("x.ogg"));
    assert!(is_audio_file("x.Oga"));
    assert!(!is_audio_file("x.wav"));
    assert!(!is_audio_file("noext"));
    assert!(!is_audio_file(".mp3"));
    assert!(!is_audio_file("album.mp3/cover.jpg"));
    assert!(!is_audio_file(""));
}

#[test]
fn extension_lists_need_lower_case() {
    assert!(is_listed_extension("mp3"));
    assert!(!is_listed_extension("MP3"));
    assert!(is_audio_extension("MP3"));
    assert!(is_audio_extension("Flac"));
    assert!(is_audio_extension("OGG"));
    assert!(!is_audio_extension("ÖGG"));
    assert!(!is_audio_extension("mp4"));
}

#[test]
fn listing_puts_directories_first_and_sorts_case_insensitively() {
    let raw = vec![
        item("/m/zeta.mp3", "zeta.mp3", false),
        item("/m/Beta", "Beta", true),
        item("/m/.hidden", ".hidden", true),
        item("/m/.secret.mp3", ".secret.mp3", false),
        item("/m/notes.txt", "notes.txt", false),
        item("/m/Alpha.OGG", "Alpha.OGG", false),
        item("/m/alpha", "alpha", true),
        item("/m/cover.jpg", "cover.jpg", false),
    ];
    let out = arrange_listing(&raw);
    assert_eq!(names(&out), vec!["alpha", "Beta", "Alpha.OGG", "zeta.mp3"]);
    assert!(out[0].is_dir && out[1].is_dir);
    assert!(!out[2].is_dir && !out[3].is_dir);
    assert_eq!(out[2].path, "/m/Alpha.OGG");
}

#[test]
fn listing_keeps_arrival_order_of_equal_names() {
    let raw = vec![
        item("/m/b.mp3", "b.mp3", false),
        item("/m/B.mp3", "B.mp3", false),
        item("/m/a.mp3", "a.mp3", false),
        item("/m/b.MP3", "b.MP3", false),
    ];
    let out = arrange_listing(&raw);
    assert_eq!(names(&out), vec!["a.mp3", "b.mp3", "B.mp3", "b.MP3"]);
}

#[test]
fn sort_orders_by_code_point_after_lowering() {
    let raw = vec![
        item("c", "éclair", false),
        item("a", "Zebra", false),
        item("b", "apple", false),
        item("d", "app", false),
        item("e", "_x", false),
    ];
    let out = sort_by_name(&raw);
    assert_eq!(names(&out), vec!["_x", "app", "apple", "Zebra", "éclair"]);
}

#[test]
fn empty_listing_stays_empty() {
    let out = arrange_listing(&Vec::new());
    assert!(out.is_empty());
    assert!(audio_files_in(&out).is_empty());
}

#[test]
fn audio_files_are_the_non_directories_in_order() {
    let listing = vec![
        item("/m/d1", "d1", true),
        item("/m/a.mp3", "a.mp3", false),
        item("/m/d2", "d2", true),
        item("/m/b.flac", "b.flac", false),
    ];
    assert_eq!(audio_files_in(&listing), vec!["/m/a.mp3".to_string(), "/m/b.flac".to_string()]);
}
