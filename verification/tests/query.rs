use musictui::fetch::{create_query, song_from_recording};

#[test]
fn a_single_word_queries_title_and_artist() {
    assert_eq!(
        create_query("abc", 10),
        "query=recording:\"abc\" OR artist:\"abc\"&limit=10"
    );
}

#[test]
fn two_words_are_split_both_ways() {
    assert_eq!(
        create_query("foo bar", 5),
        "query=recording:\"foo bar\" OR artist:\"foo bar\" OR (recording:\"foo\" AND artist:\"bar\") OR (artist:\"foo\" AND recording:\"bar\")&limit=5"
    );
}

#[test]
fn three_words_split_at_every_point() {
    assert_eq!(
        create_query("a b c", 1),
        "query=recording:\"a b c\" OR artist:\"a b c\" OR (recording:\"a\" AND artist:\"b c\") OR (recording:\"a b\" AND artist:\"c\") OR (artist:\"a\" AND recording:\"b c\") OR (artist:\"a b\" AND recording:\"c\")&limit=1"
    );
}

#[test]
fn a_wordless_query_yields_nothing() {
    assert_eq!(create_query("", 10), "");
    assert_eq!(create_query("   ", 10), "");
}

#[test]
fn recordings_become_unresolved_catalog_songs() {
    let song = song_from_recording(
        "Title".to_string(),
        Some("Artist".to_string()),
        Some("Album".to_string()),
        Some(213_500),
    );
    assert_eq!(song.title, "Title");
    assert_eq!(song.artist.as_deref(), Some("Artist"));
    assert_eq!(song.album.as_deref(), Some("Album"));
    assert_eq!(song.total_time, 213);
    assert!(!song.is_local() && !song.is_online_only() && !song.is_online_downloaded());

    let bare = song_from_recording("X".to_string(), None, None, None);
    assert_eq!(bare.total_time, 0);
}
