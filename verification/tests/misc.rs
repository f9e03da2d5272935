use musictui::config::Config;
use musictui::musicplayer::{PlayerInformation, PlayerStatus};
use musictui::events::format_ms_to_duration_string;
use musictui::filefinder::{str_ends_with, FileFinder};
use musictui::keyboard::{Action, Key, KeyboardHandler};
use musictui::song::{Song, SongType};

#[test]
fn durations_format_as_minutes_and_seconds() {
    assert_eq!(format_ms_to_duration_string(0), "00:00");
    assert_eq!(format_ms_to_duration_string(999), "00:00");
    assert_eq!(format_ms_to_duration_string(1_000), "00:01");
    assert_eq!(format_ms_to_duration_string(61_000), "01:01");
    assert_eq!(format_ms_to_duration_string(3_599_000), "59:59");
}

#[test]
fn durations_grow_an_hours_field() {
    assert_eq!(format_ms_to_duration_string(3_600_000), "01:00:00");
    assert_eq!(format_ms_to_duration_string(3_661_000), "01:01:01");
    assert_eq!(format_ms_to_duration_string(360_000_000), "100:00:00");
}

#[test]
fn unmodified_keys_decode_to_their_bindings() {
    let handler = KeyboardHandler::new();
    assert!(matches!(handler.handle(Key::Up), Some(Action::MoveUp)));
    assert!(matches!(handler.handle(Key::PageDown), Some(Action::MoveDown)));
    assert!(matches!(handler.handle(Key::Enter), Some(Action::Select)));
    assert!(matches!(handler.handle(Key::Char(' ')), Some(Action::Space)));
    assert!(matches!(handler.handle(Key::Char('x')), Some(Action::Char('x'))));
    assert!(matches!(handler.handle(Key::Left), Some(Action::PreviousSong)));
    assert!(matches!(handler.handle(Key::Right), Some(Action::NextSong)));
    assert!(matches!(handler.handle(Key::Tab), Some(Action::SwitchWindow)));
    assert!(matches!(handler.handle(Key::Backspace), Some(Action::Backspace)));
    assert!(matches!(handler.handle(Key::Esc), Some(Action::Esc)));
    assert!(handler.handle(Key::Other).is_none());
}

#[test]
fn modified_keys_decode_control_c_and_shifted_characters() {
    let handler = KeyboardHandler::new();
    assert!(matches!(
        handler.handle_with_modifier(Key::Char('c'), true, false),
        Some(Action::Quit)
    ));
    assert!(matches!(
        handler.handle_with_modifier(Key::Char('A'), false, true),
        Some(Action::Char('A'))
    ));
    assert!(handler.handle_with_modifier(Key::Char('c'), false, false).is_none());
    assert!(handler.handle_with_modifier(Key::Enter, true, false).is_none());
}

#[test]
fn suffix_test_matches_exact_endings() {
    assert!(str_ends_with("song.mp3", ".mp3"));
    assert!(str_ends_with(".mp3", ".mp3"));
    assert!(!str_ends_with("mp3", ".mp3"));
    assert!(!str_ends_with("song.mp3x", ".mp3"));
    assert!(str_ends_with("anything", ""));
}

#[test]
fn the_finder_accepts_known_audio_extensions() {
    let finder = FileFinder::new(
        [".mp3".to_string(), ".ogg".to_string(), ".wav".to_string()],
        "/music".to_string(),
        Some(2),
    );
    assert_eq!(finder.depth, 2);
    assert!(finder.matches_extension("a.mp3"));
    assert!(finder.matches_extension("b.ogg"));
    assert!(finder.matches_extension("c.wav"));
    assert!(!finder.matches_extension("d.flac"));
    assert!(!finder.matches_extension("mp3"));
}

#[test]
fn the_finder_defaults_to_depth_three() {
    let finder = FileFinder::new(
        [".mp3".to_string(), ".ogg".to_string(), ".wav".to_string()],
        "/music".to_string(),
        None,
    );
    assert_eq!(finder.depth, 3);
}

#[test]
fn the_walk_skips_hidden_directories_and_exhausted_depth() {
    assert!(FileFinder::should_descend("music", 1));
    assert!(!FileFinder::should_descend(".hidden", 1));
    assert!(!FileFinder::should_descend("music", 0));
    assert!(FileFinder::should_descend("", 5));
}

#[test]
fn song_kind_predicates_follow_the_origin() {
    let mut song = Song {
        title: "t".to_string(),
        artist: None,
        album: None,
        total_time: 0,
        song_type: SongType::Local { path: "p".to_string() },
    };
    assert!(song.is_local());
    assert!(!song.is_online_only());
    assert!(!song.is_online_downloaded());
    song.song_type = SongType::Online { url: "u".to_string() };
    assert!(!song.is_local());
    assert!(song.is_online_only());
    song.song_type = SongType::OnlineDownloaded { url: "u".to_string(), path: "p".to_string() };
    assert!(song.is_online_downloaded());
    song.song_type = SongType::OnlineWithoutUrl;
    assert!(!song.is_local() && !song.is_online_only() && !song.is_online_downloaded());
}

#[test]
fn the_default_snapshot_is_idle() {
    let info = PlayerInformation::default();
    assert!(info.queue.is_empty());
    assert_eq!(info.playing_index, None);
    assert_eq!(info.passed_time, 0);
    assert_eq!(info.volume, 0);
    assert!(matches!(info.status, PlayerStatus::NoAudioSelected));
    assert!(matches!(PlayerStatus::default(), PlayerStatus::NoAudioSelected));
}

#[test]
fn config_names_the_downloader_directories() {
    let config = Config::new();
    assert_eq!(config.ytdl_libs, "libs");
    assert_eq!(config.ytdl_output, "output");
}
