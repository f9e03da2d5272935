use musictui::keyboard::Action;
use musictui::musicplayer::{
    BackendNotification, BackendSnapshot, BackendState, Player, PlayerEffect, PlayerReceiveEvent,
    PlayerSendEvent, PlayerStatus,
};
use musictui::orchestrator::{App, AppEffect, CurrentScreen, FocusedWindowMain};
use musictui::song::{Song, SongType};

fn song(title: &str) -> Song {
    Song {
        title: title.to_string(),
        artist: Some("artist".to_string()),
        album: None,
        total_time: 30_000,
        song_type: SongType::Local { path: format!("m/{title}.mp3") },
    }
}

fn playing_backend() -> BackendSnapshot {
    BackendSnapshot { state: BackendState::Playing, passed_time: 0, volume: 50 }
}

/// Carries one reducer step's player commands into the engine and the
/// engine's notifications back into the reducer, as the binary's loop does.
fn pump(app: &mut App, engine: &mut Player, effects: Vec<AppEffect>, backend: BackendSnapshot) {
    for effect in effects {
        match effect {
            AppEffect::SendPlayer(cmd) => {
                let fx = engine.handle_command(cmd, backend);
                for e in fx {
                    if let PlayerEffect::Emit(ev) = e {
                        app.handle_player_event(ev);
                    }
                }
            }
            AppEffect::StartSearch(_, _) => {}
        }
    }
}

#[test]
fn scan_select_play_end_to_end() {
    // Scan discovers A, B, C; the browser cursor selects B; Select builds
    // the wrapped queue [B, C, A]; the engine loads B and announces
    // Play(0); the queue view then lists [B, C, A] with entry 0 playing.
    let mut app = App::new(vec![song("A"), song("B"), song("C")]);
    let mut engine = Player::new();

    app.main_screen_events(Action::MoveDown);
    let effects = app.main_screen_events(Action::Select);
    assert_eq!(effects.len(), 1);
    match &effects[0] {
        AppEffect::SendPlayer(PlayerReceiveEvent::CreateQueueAndPlay(q)) => {
            let titles: Vec<&str> = q.iter().map(|s| s.title.as_str()).collect();
            assert_eq!(titles, vec!["B", "C", "A"]);
        }
        _ => panic!("expected a queue overwrite command"),
    }

    pump(&mut app, &mut engine, effects, playing_backend());

    assert_eq!(engine.playing_index, Some(0));
    assert_eq!(app.player_information.playing_index, Some(0));
    let queue_titles: Vec<&str> =
        app.queue_select_handler.items().iter().map(|s| s.title.as_str()).collect();
    assert_eq!(queue_titles, vec!["B", "C", "A"]);
    assert!(matches!(&app.player_information.status, PlayerStatus::Playing(s) if s.title == "B"));
}

#[test]
fn backend_stop_on_the_last_song_clears_everything() {
    // Queue [B, C, A] with the last entry playing; the backend stops; the
    // engine ends playback and the reducer clears its mirror.
    let mut app = App::new(vec![song("A"), song("B"), song("C")]);
    let mut engine = Player::new();
    let fx = engine.handle_command(
        PlayerReceiveEvent::CreateQueueAndPlay(vec![song("B"), song("C"), song("A")]),
        playing_backend(),
    );
    for e in fx {
        if let PlayerEffect::Emit(ev) = e {
            app.handle_player_event(ev);
        }
    }
    let fx = engine.handle_command(PlayerReceiveEvent::SetAndPlaySong(2), playing_backend());
    for e in fx {
        if let PlayerEffect::Emit(ev) = e {
            app.handle_player_event(ev);
        }
    }
    assert_eq!(app.player_information.playing_index, Some(2));

    let fx = engine.handle_backend(BackendNotification::Stopped);
    assert_eq!(fx.len(), 1);
    for e in fx {
        if let PlayerEffect::Emit(ev) = e {
            app.handle_player_event(ev);
        }
    }
    assert_eq!(engine.playing_index, None);
    assert_eq!(app.player_information.playing_index, None);
    assert!(matches!(app.player_information.status, PlayerStatus::NoAudioSelected));
}

#[test]
fn toggle_pause_round_trip_through_the_reducer() {
    // TogglePause while B is playing: the engine emits Pause(0) and the
    // reducer shows Paused(B); a second toggle restores Playing(B).
    let mut app = App::new(vec![song("B")]);
    let mut engine = Player::new();
    let fx = engine.handle_command(
        PlayerReceiveEvent::CreateQueueAndPlay(vec![song("B")]),
        playing_backend(),
    );
    for e in fx {
        if let PlayerEffect::Emit(ev) = e {
            app.handle_player_event(ev);
        }
    }
    assert!(matches!(&app.player_information.status, PlayerStatus::Playing(s) if s.title == "B"));

    let effects = app.main_screen_events(Action::Space);
    pump(&mut app, &mut engine, effects, playing_backend());
    assert!(matches!(&app.player_information.status, PlayerStatus::Paused(s) if s.title == "B"));

    let paused = BackendSnapshot { state: BackendState::Paused, passed_time: 0, volume: 50 };
    let effects = app.main_screen_events(Action::Space);
    pump(&mut app, &mut engine, effects, paused);
    assert!(matches!(&app.player_information.status, PlayerStatus::Playing(s) if s.title == "B"));
}

#[test]
fn queue_pane_select_plays_the_highlighted_entry() {
    let mut app = App::new(vec![song("A"), song("B")]);
    let mut engine = Player::new();
    let effects = app.main_screen_events(Action::Select);
    pump(&mut app, &mut engine, effects, playing_backend());

    app.main_screen_events(Action::SwitchWindow);
    assert_eq!(app.current_screen, CurrentScreen::Main(FocusedWindowMain::Queue));
    app.main_screen_events(Action::MoveDown);
    let effects = app.main_screen_events(Action::Select);
    assert_eq!(effects.len(), 1);
    assert!(matches!(
        effects[0],
        AppEffect::SendPlayer(PlayerReceiveEvent::SetAndPlaySong(1))
    ));
}

#[test]
fn identical_identities_are_deduplicated_in_the_index() {
    let mut first = song("Same");
    first.total_time = 1;
    let mut second = song("Same");
    second.total_time = 2;
    let app = App::new(vec![first, second, song("Other")]);
    assert_eq!(app.songs.len(), 2);
    assert_eq!(app.songs[0].title, "Same");
    // The later scan entry replaced the earlier one with the same identity.
    assert_eq!(app.songs[0].total_time, 2);
    assert_eq!(app.songs[1].title, "Other");
}

#[test]
fn skip_keys_forward_to_the_player() {
    let mut app = App::new(vec![song("A")]);
    let effects = app.main_screen_events(Action::NextSong);
    assert!(matches!(effects[0], AppEffect::SendPlayer(PlayerReceiveEvent::Next)));
    let effects = app.main_screen_events(Action::PreviousSong);
    assert!(matches!(effects[0], AppEffect::SendPlayer(PlayerReceiveEvent::Previous)));
}

#[test]
fn f_focuses_the_search_pane_and_esc_leaves_it() {
    let mut app = App::new(vec![song("A")]);
    app.main_screen_events(Action::Char('f'));
    assert_eq!(app.current_screen, CurrentScreen::Main(FocusedWindowMain::Search));
    // While searching, characters go into the query, not into bindings.
    app.main_screen_events(Action::Char('f'));
    app.main_screen_events(Action::Char('x'));
    assert_eq!(app.search_handler.get_query(), "fx");
    app.main_screen_events(Action::Backspace);
    assert_eq!(app.search_handler.get_query(), "f");
    app.main_screen_events(Action::Esc);
    assert_eq!(app.current_screen, CurrentScreen::Main(FocusedWindowMain::Media));
}
