use musictui::searchhandler::SearchHandler;
use musictui::song::{Song, SongType};

fn result_song(title: &str) -> Song {
    Song {
        title: title.to_string(),
        artist: None,
        album: None,
        total_time: 200,
        song_type: SongType::OnlineWithoutUrl,
    }
}

#[test]
fn query_editing_appends_and_removes_characters() {
    let mut handler = SearchHandler::new();
    assert_eq!(handler.get_query(), "");
    handler.add_char_to_query('a');
    handler.add_char_to_query('b');
    assert_eq!(handler.get_query(), "ab");
    handler.remove_last_char();
    assert_eq!(handler.get_query(), "a");
    handler.remove_last_char();
    handler.remove_last_char();
    assert_eq!(handler.get_query(), "");
}

#[test]
fn a_newer_search_cancels_the_one_in_flight() {
    // The "abc" search is still in flight when the user types another
    // letter and searches again; the first search's results arrive late
    // and must be dropped, only the "abcd" results may land.
    let mut handler = SearchHandler::new();
    handler.add_char_to_query('a');
    handler.add_char_to_query('b');
    handler.add_char_to_query('c');
    let (stale_ticket, stale_query) = handler.search();
    assert_eq!(stale_query, "abc");

    handler.add_char_to_query('d');
    let (fresh_ticket, fresh_query) = handler.search();
    assert_eq!(fresh_query, "abcd");
    assert_ne!(stale_ticket, fresh_ticket);

    handler.apply_results(stale_ticket, vec![result_song("stale")]);
    assert!(handler.select_handler.items().is_empty());

    handler.apply_results(fresh_ticket, vec![result_song("fresh one"), result_song("fresh two")]);
    let titles: Vec<&str> =
        handler.select_handler.items().iter().map(|s| s.title.as_str()).collect();
    assert_eq!(titles, vec!["fresh one", "fresh two"]);
}

#[test]
fn results_after_completion_need_a_new_search() {
    let mut handler = SearchHandler::new();
    handler.add_char_to_query('q');
    let (ticket, _) = handler.search();
    handler.apply_results(ticket, vec![result_song("first")]);
    assert_eq!(handler.select_handler.items().len(), 1);
    // The ticket was consumed; replaying it changes nothing.
    handler.apply_results(ticket, vec![result_song("replayed")]);
    let titles: Vec<&str> =
        handler.select_handler.items().iter().map(|s| s.title.as_str()).collect();
    assert_eq!(titles, vec!["first"]);
}
