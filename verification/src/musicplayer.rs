//! The playback engine: the play queue, the current index, and the state
//! machine that turns commands and backend notifications into backend
//! calls and outbound notifications.
//!
//! The engine itself holds no handle to the audio backend. Every step
//! returns the ordered list of effects to perform — backend calls to make
//! and notifications to send — and takes whatever backend ground truth the
//! step needs (the is-playing flag, the elapsed time) as plain arguments.
//! The surrounding binary owns the real backend, performs the effects in
//! order, and feeds its notifications back in.

use vstd::prelude::*;

use crate::song::{clone_songs, Song};

verus! {

/// What the player is doing, derived from the queue, the current index and
/// the backend's own playing flag — never cached across steps.
pub enum PlayerStatus {
    Playing(Song),
    Paused(Song),
    NoAudioSelected,
}

impl Default for PlayerStatus {
    /// Before anything is loaded, nothing is selected.
    fn default() -> (r: Self)
        ensures
            r is NoAudioSelected,
    {
        PlayerStatus::NoAudioSelected
    }
}

/// Commands the engine receives.
pub enum PlayerReceiveEvent {
    SetSong(usize),
    SetAndPlaySong(usize),
    CreateQueueAndPlay(Vec<Song>),
    AddSongsToQueueAndPlay(Vec<Song>),
    Play,
    Next,
    Previous,
    Pause,
    TogglePause,
    Update,
}

/// Notifications the engine emits.
pub enum PlayerSendEvent {
    PlayerEnded,
    NextSong,
    TimeChanged(u64),
    Pause(usize),
    Play(usize),
    PlayerInformation(PlayerInformation),
    QueueUpdate(Vec<Song>),
}

/// A full snapshot of the player, emitted on `Update`.
pub struct PlayerInformation {
    pub queue: Vec<Song>,
    pub playing_index: Option<usize>,
    pub passed_time: u64,
    pub status: PlayerStatus,
    pub volume: i32,
}

impl Default for PlayerInformation {
    /// The snapshot before the first notification: an empty queue, nothing
    /// current, the clock at zero.
    fn default() -> (r: Self)
        ensures
            r.queue@.len() == 0,
            r.playing_index is None,
            r.passed_time == 0,
            r.status is NoAudioSelected,
            r.volume == 0,
    {
        PlayerInformation {
            queue: Vec::new(),
            playing_index: None,
            passed_time: 0,
            status: PlayerStatus::NoAudioSelected,
            volume: 0,
        }
    }
}

/// The backend's own play state, as last observed.
#[derive(Clone, Copy, PartialEq, Eq, Structural)]
pub enum BackendState {
    Playing,
    Paused,
    Inactive,
}

/// Backend ground truth a step may read: never stored in the engine.
#[derive(Clone, Copy, PartialEq, Eq, Structural)]
pub struct BackendSnapshot {
    pub state: BackendState,
    pub passed_time: u64,
    pub volume: i32,
}

/// A call for the surrounding binary to make against the audio backend.
/// `Load(i)` loads the queue entry at `i` (the engine guarantees `i` is in
/// bounds at the moment the command is issued).
#[derive(Clone, Copy, PartialEq, Eq, Structural)]
pub enum BackendCommand {
    Load(usize),
    Play,
    Pause,
}

/// One step's worth of outward behaviour, in the order it must happen.
pub enum PlayerEffect {
    Backend(BackendCommand),
    Emit(PlayerSendEvent),
}

/// An asynchronous notification from the audio backend.
pub enum BackendNotification {
    TimeChanged(u64),
    Stopped,
}

/// A command arriving from the operating system's media controls; it maps
/// onto the same transitions as the keyboard commands.
pub enum MediaControlAction {
    Play,
    Pause,
    Next,
    Previous,
    Toggle,
}

/// The playback engine's own state: the queue and the current index.
pub struct Player {
    pub queue: Vec<Song>,
    pub playing_index: Option<usize>,
}

/// The engine's invariant: the current index, when present, addresses a
/// queue entry.
pub open spec fn player_wf(p: Player) -> bool {
    match p.playing_index {
        Option::None => true,
        Option::Some(i) => i < p.queue@.len(),
    }
}

/// Status derivation: `Playing`/`Paused` exactly when the backend says so
/// and a current queue entry exists; everything else is `NoAudioSelected`.
pub open spec fn spec_player_status(p: Player, state: BackendState) -> PlayerStatus {
    match p.playing_index {
        Option::Some(i) => if i < p.queue@.len() {
            match state {
                BackendState::Playing => PlayerStatus::Playing(p.queue@[i as int]),
                BackendState::Paused => PlayerStatus::Paused(p.queue@[i as int]),
                BackendState::Inactive => PlayerStatus::NoAudioSelected,
            }
        } else {
            PlayerStatus::NoAudioSelected
        },
        Option::None => PlayerStatus::NoAudioSelected,
    }
}

/// Loading a valid index makes it current and issues one backend load; an
/// out-of-range index (a race with a queue mutation) is silently ignored.
pub open spec fn set_song_rel(o: Player, n: Player, fx: Seq<PlayerEffect>, index: usize) -> bool {
    if index < o.queue@.len() {
        &&& n.queue@ == o.queue@
        &&& n.playing_index == Option::Some(index)
        &&& fx =~= seq![PlayerEffect::Backend(BackendCommand::Load(index))]
    } else {
        &&& n == o
        &&& fx =~= Seq::<PlayerEffect>::empty()
    }
}

/// With a current song, one backend play and one `Play(i)` notification;
/// with none, nothing.
pub open spec fn play_rel(p: Player, fx: Seq<PlayerEffect>) -> bool {
    match p.playing_index {
        Option::Some(i) => fx =~= seq![
            PlayerEffect::Backend(BackendCommand::Play),
            PlayerEffect::Emit(PlayerSendEvent::Play(i)),
        ],
        Option::None => fx =~= Seq::<PlayerEffect>::empty(),
    }
}

/// With a current song, one backend pause and one `Pause(i)` notification;
/// with none, nothing.
pub open spec fn pause_rel(p: Player, fx: Seq<PlayerEffect>) -> bool {
    match p.playing_index {
        Option::Some(i) => fx =~= seq![
            PlayerEffect::Backend(BackendCommand::Pause),
            PlayerEffect::Emit(PlayerSendEvent::Pause(i)),
        ],
        Option::None => fx =~= Seq::<PlayerEffect>::empty(),
    }
}

/// Advance to the next queue entry; at the end of the queue, clear the
/// current index and announce that playback ended.
pub open spec fn next_rel(o: Player, n: Player, fx: Seq<PlayerEffect>) -> bool {
    &&& n.queue@ == o.queue@
    &&& match o.playing_index {
        Option::None => n == o && fx =~= Seq::<PlayerEffect>::empty(),
        Option::Some(i) => if i + 1 < o.queue@.len() {
            &&& n.playing_index == Option::Some((i + 1) as usize)
            &&& fx =~= seq![
                PlayerEffect::Backend(BackendCommand::Load((i + 1) as usize)),
                PlayerEffect::Emit(PlayerSendEvent::NextSong),
                PlayerEffect::Backend(BackendCommand::Play),
                PlayerEffect::Emit(PlayerSendEvent::Play((i + 1) as usize)),
            ]
        } else {
            &&& n.playing_index is None
            &&& fx =~= seq![PlayerEffect::Emit(PlayerSendEvent::PlayerEnded)]
        },
    }
}

/// Step back one queue entry; a no-op at the first entry or with no
/// current song.
pub open spec fn prev_rel(o: Player, n: Player, fx: Seq<PlayerEffect>) -> bool {
    match o.playing_index {
        Option::Some(i) => if i > 0 {
            &&& n.queue@ == o.queue@
            &&& n.playing_index == Option::Some((i - 1) as usize)
            &&& fx =~= seq![
                PlayerEffect::Backend(BackendCommand::Load((i - 1) as usize)),
                PlayerEffect::Backend(BackendCommand::Play),
                PlayerEffect::Emit(PlayerSendEvent::Play((i - 1) as usize)),
            ]
        } else {
            &&& n == o
            &&& fx =~= Seq::<PlayerEffect>::empty()
        },
        Option::None => n == o && fx =~= Seq::<PlayerEffect>::empty(),
    }
}

/// Full queue overwrite: announce the new queue, then start its first
/// entry; an empty queue leaves no current index behind.
pub open spec fn create_rel(o: Player, n: Player, fx: Seq<PlayerEffect>, songs: Seq<Song>) -> bool {
    &&& n.queue@ == songs
    &&& if songs.len() > 0 {
        &&& n.playing_index == Option::Some(0usize)
        &&& fx.len() == 4
        &&& (fx[0] matches PlayerEffect::Emit(PlayerSendEvent::QueueUpdate(q)) && q@ == songs)
        &&& fx[1] == PlayerEffect::Backend(BackendCommand::Load(0usize))
        &&& fx[2] == PlayerEffect::Backend(BackendCommand::Play)
        &&& fx[3] == PlayerEffect::Emit(PlayerSendEvent::Play(0usize))
    } else {
        &&& n.playing_index is None
        &&& fx.len() == 1
        &&& (fx[0] matches PlayerEffect::Emit(PlayerSendEvent::QueueUpdate(q)) && q@ == songs)
    }
}

/// Append to the queue and announce it; when the engine was idle, start the
/// first appended entry.
pub open spec fn append_rel(o: Player, n: Player, fx: Seq<PlayerEffect>, songs: Seq<Song>) -> bool {
    &&& n.queue@ == o.queue@ + songs
    &&& if o.playing_index is None && songs.len() > 0 {
        let first = o.queue@.len() as usize;
        &&& n.playing_index == Option::Some(first)
        &&& fx.len() == 4
        &&& (fx[0] matches PlayerEffect::Emit(PlayerSendEvent::QueueUpdate(q)) && q@ == n.queue@)
        &&& fx[1] == PlayerEffect::Backend(BackendCommand::Load(first))
        &&& fx[2] == PlayerEffect::Backend(BackendCommand::Play)
        &&& fx[3] == PlayerEffect::Emit(PlayerSendEvent::Play(first))
    } else {
        &&& n.playing_index == o.playing_index
        &&& fx.len() == 1
        &&& (fx[0] matches PlayerEffect::Emit(PlayerSendEvent::QueueUpdate(q)) && q@ == n.queue@)
    }
}

/// Invert play/pause as the backend reports it; ignored with no current
/// song.
pub open spec fn toggle_rel(o: Player, n: Player, fx: Seq<PlayerEffect>, playing: bool) -> bool {
    &&& n == o
    &&& match o.playing_index {
        Option::Some(_) => if playing {
            pause_rel(o, fx)
        } else {
            play_rel(o, fx)
        },
        Option::None => fx =~= Seq::<PlayerEffect>::empty(),
    }
}

/// The snapshot emitted on `Update` mirrors the engine state and the
/// backend ground truth exactly.
pub open spec fn update_rel(p: Player, fx: Seq<PlayerEffect>, backend: BackendSnapshot) -> bool {
    &&& fx.len() == 1
    &&& (fx[0] matches PlayerEffect::Emit(PlayerSendEvent::PlayerInformation(pi)) && {
        &&& pi.queue@ == p.queue@
        &&& pi.playing_index == p.playing_index
        &&& pi.passed_time == backend.passed_time
        &&& pi.volume == backend.volume
        &&& pi.status == spec_player_status(p, backend.state)
    })
}

impl Player {
    /// A fresh engine: empty queue, nothing current.
    pub fn new() -> (r: Player)
        ensures
            player_wf(r),
            r.queue@.len() == 0,
            r.playing_index is None,
    {
        Player { queue: Vec::new(), playing_index: None }
    }

    /// The current song and its index, when one is loaded.
    pub fn get_current_song(&self) -> (r: Option<(&Song, usize)>)
        requires
            player_wf(*self),
        ensures
            match r {
                Option::Some(p) => {
                    &&& self.playing_index == Option::Some(p.1)
                    &&& p.1 < self.queue@.len()
                    &&& *p.0 == self.queue@[p.1 as int]
                },
                Option::None => self.playing_index is None,
            },
    {
        if let Some(i) = self.playing_index {
            Some((&self.queue[i], i))
        } else {
            None
        }
    }

    /// Loads the queue entry at `index` without starting it.
    pub fn set_song(&mut self, index: usize) -> (fx: Vec<PlayerEffect>)
        requires
            player_wf(*old(self)),
        ensures
            player_wf(*final(self)),
            set_song_rel(*old(self), *final(self), fx@, index),
    {
        let mut fx: Vec<PlayerEffect> = Vec::new();
        if index < self.queue.len() {
            self.playing_index = Some(index);
            fx.push(PlayerEffect::Backend(BackendCommand::Load(index)));
        }
        fx
    }

    /// Starts the backend on the current song and announces it.
    pub fn play(&self) -> (fx: Vec<PlayerEffect>)
        requires
            player_wf(*self),
        ensures
            play_rel(*self, fx@),
    {
        let mut fx: Vec<PlayerEffect> = Vec::new();
        if let Some(i) = self.playing_index {
            fx.push(PlayerEffect::Backend(BackendCommand::Play));
            fx.push(PlayerEffect::Emit(PlayerSendEvent::Play(i)));
        }
        fx
    }

    /// Pauses the backend on the current song and announces it.
    pub fn pause(&self) -> (fx: Vec<PlayerEffect>)
        requires
            player_wf(*self),
        ensures
            pause_rel(*self, fx@),
    {
        let mut fx: Vec<PlayerEffect> = Vec::new();
        if let Some(i) = self.playing_index {
            fx.push(PlayerEffect::Backend(BackendCommand::Pause));
            fx.push(PlayerEffect::Emit(PlayerSendEvent::Pause(i)));
        }
        fx
    }

    /// Loads and starts the queue entry at `index`; out-of-range indexes
    /// are silently ignored.
    pub fn set_and_play_song(&mut self, index: usize) -> (fx: Vec<PlayerEffect>)
        requires
            player_wf(*old(self)),
        ensures
            player_wf(*final(self)),
            final(self).queue@ == old(self).queue@,
            if index < old(self).queue@.len() {
                &&& final(self).playing_index == Option::Some(index)
                &&& fx@ =~= seq![
                    PlayerEffect::Backend(BackendCommand::Load(index)),
                    PlayerEffect::Backend(BackendCommand::Play),
                    PlayerEffect::Emit(PlayerSendEvent::Play(index)),
                ]
            } else {
                &&& *final(self) == *old(self)
                &&& fx@ =~= Seq::<PlayerEffect>::empty()
            },
    {
        let valid = index < self.queue.len();
        let mut fx = self.set_song(index);
        if valid {
            let mut fx2 = self.play();
            fx.append(&mut fx2);
        }
        fx
    }

    /// Advances to the next queue entry, or ends playback at the last one.
    pub fn next_song(&mut self) -> (fx: Vec<PlayerEffect>)
        requires
            player_wf(*old(self)),
        ensures
            player_wf(*final(self)),
            next_rel(*old(self), *final(self), fx@),
    {
        let mut fx: Vec<PlayerEffect> = Vec::new();
        let n = self.queue.len();
        if let Some(i) = self.playing_index {
            if i >= n - 1 {
                self.playing_index = None;
                fx.push(PlayerEffect::Emit(PlayerSendEvent::PlayerEnded));
            } else {
                self.playing_index = Some(i + 1);
                fx.push(PlayerEffect::Backend(BackendCommand::Load(i + 1)));
                fx.push(PlayerEffect::Emit(PlayerSendEvent::NextSong));
                fx.push(PlayerEffect::Backend(BackendCommand::Play));
                fx.push(PlayerEffect::Emit(PlayerSendEvent::Play(i + 1)));
            }
        }
        fx
    }

    /// Steps back one queue entry; calling this at the first entry (or with
    /// nothing current) changes nothing and emits nothing.
    pub fn prev_song(&mut self) -> (fx: Vec<PlayerEffect>)
        requires
            player_wf(*old(self)),
        ensures
            player_wf(*final(self)),
            prev_rel(*old(self), *final(self), fx@),
    {
        let mut fx: Vec<PlayerEffect> = Vec::new();
        if let Some(i) = self.playing_index {
            if i > 0 {
                self.playing_index = Some(i - 1);
                fx.push(PlayerEffect::Backend(BackendCommand::Load(i - 1)));
                fx.push(PlayerEffect::Backend(BackendCommand::Play));
                fx.push(PlayerEffect::Emit(PlayerSendEvent::Play(i - 1)));
            }
        }
        fx
    }

    /// Replaces the queue wholesale and starts its first entry; an empty
    /// queue clears the current index the moment it is installed.
    pub fn create_queue_and_play(&mut self, songs: Vec<Song>) -> (fx: Vec<PlayerEffect>)
        requires
            player_wf(*old(self)),
        ensures
            player_wf(*final(self)),
            create_rel(*old(self), *final(self), fx@, songs@),
    {
        let mut fx: Vec<PlayerEffect> = Vec::new();
        self.queue = songs;
        fx.push(PlayerEffect::Emit(PlayerSendEvent::QueueUpdate(clone_songs(&self.queue))));
        if self.queue.len() > 0 {
            self.playing_index = Some(0);
            fx.push(PlayerEffect::Backend(BackendCommand::Load(0)));
            fx.push(PlayerEffect::Backend(BackendCommand::Play));
            fx.push(PlayerEffect::Emit(PlayerSendEvent::Play(0)));
        } else {
            self.playing_index = None;
        }
        fx
    }

    /// Appends to the queue, announcing the new queue; when nothing was
    /// playing, starts the first appended entry.
    pub fn add_songs_to_queue(&mut self, songs: Vec<Song>) -> (fx: Vec<PlayerEffect>)
        requires
            player_wf(*old(self)),
        ensures
            player_wf(*final(self)),
            append_rel(*old(self), *final(self), fx@, songs@),
    {
        let mut fx: Vec<PlayerEffect> = Vec::new();
        let was_idle = self.playing_index.is_none();
        let first = self.queue.len();
        let mut songs = songs;
        let appended = songs.len() > 0;
        self.queue.append(&mut songs);
        fx.push(PlayerEffect::Emit(PlayerSendEvent::QueueUpdate(clone_songs(&self.queue))));
        if was_idle && appended {
            self.playing_index = Some(first);
            fx.push(PlayerEffect::Backend(BackendCommand::Load(first)));
            fx.push(PlayerEffect::Backend(BackendCommand::Play));
            fx.push(PlayerEffect::Emit(PlayerSendEvent::Play(first)));
        }
        fx
    }

    /// Inverts play/pause according to the backend's reported flag; ignored
    /// with no current song.
    pub fn toggle_pause(&mut self, backend_playing: bool) -> (fx: Vec<PlayerEffect>)
        requires
            player_wf(*old(self)),
        ensures
            player_wf(*final(self)),
            toggle_rel(*old(self), *final(self), fx@, backend_playing),
    {
        if self.playing_index.is_some() {
            if backend_playing {
                self.pause()
            } else {
                self.play()
            }
        } else {
            Vec::new()
        }
    }

    /// Derives the player status from the queue, the current index and the
    /// backend's own state.
    pub fn get_player_status(&self, state: BackendState) -> (r: PlayerStatus)
        requires
            player_wf(*self),
        ensures
            r == spec_player_status(*self, state),
    {
        if let Some(i) = self.playing_index {
            match state {
                BackendState::Playing => PlayerStatus::Playing(self.queue[i].clone()),
                BackendState::Paused => PlayerStatus::Paused(self.queue[i].clone()),
                BackendState::Inactive => PlayerStatus::NoAudioSelected,
            }
        } else {
            PlayerStatus::NoAudioSelected
        }
    }

    /// The full snapshot: engine state plus the given backend ground truth.
    pub fn get_player_information(&self, backend: BackendSnapshot) -> (r: PlayerInformation)
        requires
            player_wf(*self),
        ensures
            r.queue@ == self.queue@,
            r.playing_index == self.playing_index,
            r.passed_time == backend.passed_time,
            r.volume == backend.volume,
            r.status == spec_player_status(*self, backend.state),
    {
        PlayerInformation {
            queue: clone_songs(&self.queue),
            playing_index: self.playing_index,
            passed_time: backend.passed_time,
            status: self.get_player_status(backend.state),
            volume: backend.volume,
        }
    }

    /// One engine step for a command, given the backend ground truth the
    /// step may read. Dispatches to the transition each command stands for.
    pub fn handle_command(&mut self, event: PlayerReceiveEvent, backend: BackendSnapshot) -> (fx:
        Vec<PlayerEffect>)
        requires
            player_wf(*old(self)),
        ensures
            player_wf(*final(self)),
            match event {
                PlayerReceiveEvent::SetSong(i) => set_song_rel(
                    *old(self),
                    *final(self),
                    fx@,
                    i,
                ),
                PlayerReceiveEvent::SetAndPlaySong(i) => {
                    &&& final(self).queue@ == old(self).queue@
                    &&& if i < old(self).queue@.len() {
                        &&& final(self).playing_index == Option::Some(i)
                        &&& fx@ =~= seq![
                            PlayerEffect::Backend(BackendCommand::Load(i)),
                            PlayerEffect::Backend(BackendCommand::Play),
                            PlayerEffect::Emit(PlayerSendEvent::Play(i)),
                        ]
                    } else {
                        &&& *final(self) == *old(self)
                        &&& fx@ =~= Seq::<PlayerEffect>::empty()
                    }
                },
                PlayerReceiveEvent::CreateQueueAndPlay(songs) => create_rel(
                    *old(self),
                    *final(self),
                    fx@,
                    songs@,
                ),
                PlayerReceiveEvent::AddSongsToQueueAndPlay(songs) => append_rel(
                    *old(self),
                    *final(self),
                    fx@,
                    songs@,
                ),
                PlayerReceiveEvent::Play => *final(self) == *old(self) && play_rel(
                    *old(self),
                    fx@,
                ),
                PlayerReceiveEvent::Next => next_rel(*old(self), *final(self), fx@),
                PlayerReceiveEvent::Previous => prev_rel(*old(self), *final(self), fx@),
                PlayerReceiveEvent::Pause => *final(self) == *old(self) && pause_rel(
                    *old(self),
                    fx@,
                ),
                PlayerReceiveEvent::TogglePause => toggle_rel(
                    *old(self),
                    *final(self),
                    fx@,
                    backend.state is Playing,
                ),
                PlayerReceiveEvent::Update => *final(self) == *old(self) && update_rel(
                    *old(self),
                    fx@,
                    backend,
                ),
            },
    {
        match event {
            PlayerReceiveEvent::SetSong(i) => self.set_song(i),
            PlayerReceiveEvent::SetAndPlaySong(i) => self.set_and_play_song(i),
            PlayerReceiveEvent::CreateQueueAndPlay(songs) => self.create_queue_and_play(songs),
            PlayerReceiveEvent::AddSongsToQueueAndPlay(songs) => self.add_songs_to_queue(songs),
            PlayerReceiveEvent::Play => self.play(),
            PlayerReceiveEvent::Next => self.next_song(),
            PlayerReceiveEvent::Previous => self.prev_song(),
            PlayerReceiveEvent::Pause => self.pause(),
            PlayerReceiveEvent::TogglePause => {
                let playing = matches!(backend.state, BackendState::Playing);
                self.toggle_pause(playing)
            },
            PlayerReceiveEvent::Update => {
                let mut fx: Vec<PlayerEffect> = Vec::new();
                let info = self.get_player_information(backend);
                fx.push(PlayerEffect::Emit(PlayerSendEvent::PlayerInformation(info)));
                fx
            },
        }
    }

    /// One engine step for a backend notification: a time tick is passed on
    /// unchanged; the backend stopping advances the queue exactly as a
    /// `Next` command would, so ending naturally and skipping cannot
    /// diverge.
    pub fn handle_backend(&mut self, event: BackendNotification) -> (fx: Vec<PlayerEffect>)
        requires
            player_wf(*old(self)),
        ensures
            player_wf(*final(self)),
            match event {
                BackendNotification::TimeChanged(t) => *final(self) == *old(self) && fx@ =~= seq![
                    PlayerEffect::Emit(PlayerSendEvent::TimeChanged(t)),
                ],
                BackendNotification::Stopped => next_rel(*old(self), *final(self), fx@),
            },
    {
        match event {
            BackendNotification::TimeChanged(t) => {
                let mut fx: Vec<PlayerEffect> = Vec::new();
                fx.push(PlayerEffect::Emit(PlayerSendEvent::TimeChanged(t)));
                fx
            },
            BackendNotification::Stopped => self.next_song(),
        }
    }

    /// One engine step for an OS media-control action: each maps onto the
    /// same transition as the matching command.
    pub fn handle_media_control(&mut self, action: MediaControlAction, backend_playing: bool) -> (fx:
        Vec<PlayerEffect>)
        requires
            player_wf(*old(self)),
        ensures
            player_wf(*final(self)),
            match action {
                MediaControlAction::Play => *final(self) == *old(self) && play_rel(
                    *old(self),
                    fx@,
                ),
                MediaControlAction::Pause => *final(self) == *old(self) && pause_rel(
                    *old(self),
                    fx@,
                ),
                MediaControlAction::Next => next_rel(*old(self), *final(self), fx@),
                MediaControlAction::Previous => prev_rel(*old(self), *final(self), fx@),
                MediaControlAction::Toggle => toggle_rel(
                    *old(self),
                    *final(self),
                    fx@,
                    backend_playing,
                ),
            },
    {
        match action {
            MediaControlAction::Play => self.play(),
            MediaControlAction::Pause => self.pause(),
            MediaControlAction::Next => self.next_song(),
            MediaControlAction::Previous => self.prev_song(),
            MediaControlAction::Toggle => self.toggle_pause(backend_playing),
        }
    }
}

} // verus!
