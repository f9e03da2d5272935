use musictui::musicplayer::{
    BackendCommand, BackendNotification, BackendSnapshot, BackendState, Player, PlayerEffect,
    PlayerReceiveEvent, PlayerSendEvent, PlayerStatus,
};
use musictui::song::{Song, SongType};

fn song(title: &str) -> Song {
    Song {
        title: title.to_string(),
        artist: None,
        album: None,
        total_time: 30_000,
        song_type: SongType::Local { path: format!("m/{title}.mp3") },
    }
}

fn idle_backend() -> BackendSnapshot {
    BackendSnapshot { state: BackendState::Inactive, passed_time: 0, volume: 50 }
}

fn assert_index_valid(player: &Player) {
    if let Some(i) = player.playing_index {
        assert!(i < player.queue.len(), "dangling playing index {i}");
    }
}

#[test]
fn create_queue_loads_and_plays_the_first_entry() {
    let mut player = Player::new();
    let fx = player.create_queue_and_play(vec![song("A"), song("B")]);
    assert_eq!(player.playing_index, Some(0));
    assert_eq!(fx.len(), 4);
    assert!(matches!(&fx[0], PlayerEffect::Emit(PlayerSendEvent::QueueUpdate(q)) if q.len() == 2));
    assert!(matches!(fx[1], PlayerEffect::Backend(BackendCommand::Load(0))));
    assert!(matches!(fx[2], PlayerEffect::Backend(BackendCommand::Play)));
    assert!(matches!(fx[3], PlayerEffect::Emit(PlayerSendEvent::Play(0))));
}

#[test]
fn empty_queue_clears_the_current_index() {
    let mut player = Player::new();
    player.create_queue_and_play(vec![song("A"), song("B"), song("C")]);
    player.next_song();
    assert_eq!(player.playing_index, Some(1));
    let fx = player.create_queue_and_play(Vec::new());
    assert_eq!(player.playing_index, None);
    assert_eq!(fx.len(), 1);
    assert!(matches!(&fx[0], PlayerEffect::Emit(PlayerSendEvent::QueueUpdate(q)) if q.is_empty()));
}

#[test]
fn random_command_interleavings_never_leave_a_dangling_index() {
    // A fixed pseudo-random walk over the commands the index depends on.
    let mut player = Player::new();
    let mut state: u64 = 0x9E3779B97F4A7C15;
    for step in 0..500 {
        state = state.wrapping_mul(6364136223846793005).wrapping_add(1442695040888963407);
        match state % 5 {
            0 => {
                let n = (state >> 32) % 4;
                let songs: Vec<Song> = (0..n).map(|k| song(&format!("s{step}-{k}"))).collect();
                player.create_queue_and_play(songs);
            }
            1 => {
                player.next_song();
            }
            2 => {
                player.prev_song();
            }
            3 => {
                let i = ((state >> 32) % 6) as usize;
                player.set_and_play_song(i);
            }
            _ => {
                player.handle_backend(BackendNotification::Stopped);
            }
        }
        assert_index_valid(&player);
    }
}

#[test]
fn previous_at_the_first_entry_changes_nothing() {
    let mut player = Player::new();
    player.create_queue_and_play(vec![song("A"), song("B")]);
    assert_eq!(player.playing_index, Some(0));
    let fx = player.prev_song();
    assert!(fx.is_empty(), "no effect may be emitted");
    assert_eq!(player.playing_index, Some(0));
    assert_eq!(player.queue.len(), 2);
}

#[test]
fn next_at_the_last_entry_ends_playback() {
    let mut player = Player::new();
    player.create_queue_and_play(vec![song("A"), song("B")]);
    player.next_song();
    assert_eq!(player.playing_index, Some(1));
    let fx = player.next_song();
    assert_eq!(player.playing_index, None);
    assert_eq!(fx.len(), 1);
    assert!(matches!(fx[0], PlayerEffect::Emit(PlayerSendEvent::PlayerEnded)));
}

#[test]
fn backend_stopped_advances_like_next() {
    let mut player = Player::new();
    player.create_queue_and_play(vec![song("A"), song("B")]);
    let fx = player.handle_backend(BackendNotification::Stopped);
    assert_eq!(player.playing_index, Some(1));
    assert!(matches!(fx[0], PlayerEffect::Backend(BackendCommand::Load(1))));
    assert!(matches!(fx[1], PlayerEffect::Emit(PlayerSendEvent::NextSong)));
    assert!(matches!(fx[2], PlayerEffect::Backend(BackendCommand::Play)));
    assert!(matches!(fx[3], PlayerEffect::Emit(PlayerSendEvent::Play(1))));
}

#[test]
fn stopped_on_the_last_entry_emits_player_ended() {
    // Queue [B, C, A], playing the last entry; the backend reports it
    // stopped; the engine ends playback and clears the index.
    let mut player = Player::new();
    player.create_queue_and_play(vec![song("B"), song("C"), song("A")]);
    player.set_and_play_song(2);
    assert_eq!(player.playing_index, Some(2));
    let fx = player.handle_backend(BackendNotification::Stopped);
    assert_eq!(player.playing_index, None);
    assert_eq!(fx.len(), 1);
    assert!(matches!(fx[0], PlayerEffect::Emit(PlayerSendEvent::PlayerEnded)));
}

#[test]
fn toggle_pause_inverts_the_backend_state() {
    let mut player = Player::new();
    player.create_queue_and_play(vec![song("B")]);
    let fx = player.toggle_pause(true);
    assert_eq!(fx.len(), 2);
    assert!(matches!(fx[0], PlayerEffect::Backend(BackendCommand::Pause)));
    assert!(matches!(fx[1], PlayerEffect::Emit(PlayerSendEvent::Pause(0))));
    let fx = player.toggle_pause(false);
    assert_eq!(fx.len(), 2);
    assert!(matches!(fx[0], PlayerEffect::Backend(BackendCommand::Play)));
    assert!(matches!(fx[1], PlayerEffect::Emit(PlayerSendEvent::Play(0))));
}

#[test]
fn toggle_pause_without_a_current_song_is_ignored() {
    let mut player = Player::new();
    let fx = player.toggle_pause(true);
    assert!(fx.is_empty());
}

#[test]
fn out_of_range_set_and_play_is_silently_ignored() {
    let mut player = Player::new();
    player.create_queue_and_play(vec![song("A")]);
    let fx = player.set_and_play_song(5);
    assert!(fx.is_empty());
    assert_eq!(player.playing_index, Some(0));
}

#[test]
fn append_to_idle_engine_starts_the_first_appended_song() {
    let mut player = Player::new();
    let fx = player.add_songs_to_queue(vec![song("A"), song("B")]);
    assert_eq!(player.playing_index, Some(0));
    assert_eq!(fx.len(), 4);
    assert!(matches!(&fx[0], PlayerEffect::Emit(PlayerSendEvent::QueueUpdate(q)) if q.len() == 2));
    assert!(matches!(fx[1], PlayerEffect::Backend(BackendCommand::Load(0))));
}

#[test]
fn append_while_playing_only_announces_the_queue() {
    let mut player = Player::new();
    player.create_queue_and_play(vec![song("A")]);
    let fx = player.add_songs_to_queue(vec![song("B")]);
    assert_eq!(player.playing_index, Some(0));
    assert_eq!(player.queue.len(), 2);
    assert_eq!(fx.len(), 1);
    assert!(matches!(&fx[0], PlayerEffect::Emit(PlayerSendEvent::QueueUpdate(q)) if q.len() == 2));
}

#[test]
fn status_is_derived_from_queue_index_and_backend() {
    let mut player = Player::new();
    assert!(matches!(
        player.get_player_status(BackendState::Playing),
        PlayerStatus::NoAudioSelected
    ));
    player.create_queue_and_play(vec![song("B")]);
    assert!(matches!(
        player.get_player_status(BackendState::Playing),
        PlayerStatus::Playing(s) if s.title == "B"
    ));
    assert!(matches!(
        player.get_player_status(BackendState::Paused),
        PlayerStatus::Paused(s) if s.title == "B"
    ));
    assert!(matches!(
        player.get_player_status(BackendState::Inactive),
        PlayerStatus::NoAudioSelected
    ));
}

#[test]
fn update_emits_a_full_snapshot() {
    let mut player = Player::new();
    player.create_queue_and_play(vec![song("A"), song("B")]);
    let backend = BackendSnapshot { state: BackendState::Playing, passed_time: 1234, volume: 80 };
    let fx = player.handle_command(PlayerReceiveEvent::Update, backend);
    assert_eq!(fx.len(), 1);
    match &fx[0] {
        PlayerEffect::Emit(PlayerSendEvent::PlayerInformation(info)) => {
            assert_eq!(info.queue.len(), 2);
            assert_eq!(info.playing_index, Some(0));
            assert_eq!(info.passed_time, 1234);
            assert_eq!(info.volume, 80);
            assert!(matches!(&info.status, PlayerStatus::Playing(s) if s.title == "A"));
        }
        _ => panic!("expected a snapshot"),
    }
}

#[test]
fn commands_dispatch_to_the_same_transitions() {
    let mut player = Player::new();
    let fx = player.handle_command(
        PlayerReceiveEvent::CreateQueueAndPlay(vec![song("A"), song("B")]),
        idle_backend(),
    );
    assert_eq!(fx.len(), 4);
    let fx = player.handle_command(PlayerReceiveEvent::Next, idle_backend());
    assert_eq!(player.playing_index, Some(1));
    assert_eq!(fx.len(), 4);
    let fx = player.handle_command(PlayerReceiveEvent::Previous, idle_backend());
    assert_eq!(player.playing_index, Some(0));
    assert_eq!(fx.len(), 3);
    let fx = player.handle_command(PlayerReceiveEvent::SetSong(1), idle_backend());
    assert_eq!(player.playing_index, Some(1));
    assert_eq!(fx.len(), 1);
    assert!(matches!(fx[0], PlayerEffect::Backend(BackendCommand::Load(1))));
}

#[test]
fn time_changes_pass_through_without_mutation() {
    let mut player = Player::new();
    player.create_queue_and_play(vec![song("A")]);
    let fx = player.handle_backend(BackendNotification::TimeChanged(777));
    assert_eq!(player.playing_index, Some(0));
    assert_eq!(fx.len(), 1);
    assert!(matches!(fx[0], PlayerEffect::Emit(PlayerSendEvent::TimeChanged(777))));
}
