use audio_player::library::{
    is_collection_extension, is_playable_extension, is_playable_lowercase, matches_search,
    search_titles,
};

#[test]
fn playable_extensions_in_any_case() {
    assert!(is_playable_extension("mp3"));
    assert!(is_playable_extension("MP3"));
    assert!(is_playable_extension("Flac"));
    assert!(is_playable_extension("WAV"));
    assert!(is_playable_extension("ogg"));
    assert!(!is_playable_extension("mp4"));
    assert!(!is_playable_extension("txt"));
    assert!(!is_playable_extension(""));
}

#[test]
fn lowercase_check_is_exact() {
    assert!(is_playable_lowercase("wav"));
    assert!(!is_playable_lowercase("WAV"));
}

#[test]
fn collection_lists_mp3_only() {
    assert!(is_collection_extension("Mp3"));
    assert!(!is_collection_extension("wav"));
}

#[test]
fn search_ignores_case() {
    assert!(matches_search("Hello World", "WORLD"));
    assert!(matches_search("Hello World", ""));
    assert!(!matches_search("Hello World", "worlds"));
}

#[test]
fn search_lists_matching_positions() {
    let titles = vec![
        "Blue Song".to_string(),
        "Red".to_string(),
        "BLUES".to_string(),
    ];
    assert_eq!(search_titles(&titles, "blue"), vec![0, 2]);
    assert_eq!(search_titles(&titles, ""), vec![0, 1, 2]);
    assert_eq!(search_titles(&titles, "green"), Vec::<usize>::new());
}
