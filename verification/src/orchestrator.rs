//! The application reducer: one place that turns user actions and playback
//! notifications into state changes and player commands.
//!
//! The reducer owns the screens and cursors, the folder browser, the flat
//! library index, the search state and the last playback snapshot. It never
//! performs I/O: each step returns the effects — player commands to send,
//! searches to start — and the surrounding binary carries them out. All
//! playback-derived state changes only in response to player notifications;
//! the reducer never assumes a command succeeded.

use vstd::prelude::*;

use crate::folder_handler::{
    fh_current, fh_wf, insert_songs_model, model_wf, spec_songs_of, songs_of_children, Folder,
    FolderHandler, FolderModel, Node, NodeModel,
};
use crate::keyboard::Action;
use crate::musicplayer::{
    PlayerInformation, PlayerReceiveEvent, PlayerSendEvent, PlayerStatus,
};
use crate::searchhandler::{sh_wf, SearchHandler};
use crate::selecthandler::{spec_rotated, SelectHandler};
use crate::song::{clone_songs, Song};
use vstd::pervasive::cloned;
use vstd::string::StringExecFns;

verus! {

/// The screen in front of the user. There is one screen, with three panes.
#[derive(Clone, Copy, Debug, PartialEq, Eq, Structural)]
pub enum CurrentScreen {
    Main(FocusedWindowMain),
}

/// Which pane has input focus.
#[derive(Clone, Copy, Debug, PartialEq, Eq, Structural)]
pub enum FocusedWindowMain {
    Media,
    Queue,
    Search,
}

/// Whether the media pane shows the flat song list or the folder tree.
#[derive(Clone, Copy, Debug, PartialEq, Eq, Structural)]
pub enum MediaDisplayType {
    Songs,
    Folders,
}

/// What one reducer step asks the surrounding binary to do.
pub enum AppEffect {
    SendPlayer(PlayerReceiveEvent),
    StartSearch(u64, String),
}

/// Two songs are the same library entry when title and artist agree.
pub open spec fn same_identity(a: Song, b: Song) -> bool {
    &&& a.title@ == b.title@
    &&& match (a.artist, b.artist) {
        (Option::Some(x), Option::Some(y)) => x@ == y@,
        (Option::None, Option::None) => true,
        _ => false,
    }
}

/// The position of the first entry with this song's identity, if any.
pub open spec fn find_identity_index(s: Seq<Song>, x: Song) -> Option<int>
    decreases s.len(),
{
    if s.len() == 0 {
        Option::None
    } else if same_identity(s[0], x) {
        Option::Some(0int)
    } else {
        match find_identity_index(s.drop_first(), x) {
            Option::Some(i) => Option::Some(i + 1),
            Option::None => Option::None,
        }
    }
}

pub proof fn lemma_find_identity_index(s: Seq<Song>, x: Song)
    ensures
        match find_identity_index(s, x) {
            Option::Some(i) => {
                &&& 0 <= i < s.len()
                &&& same_identity(s[i], x)
                &&& forall|j: int| 0 <= j < i ==> !same_identity(#[trigger] s[j], x)
            },
            Option::None => forall|j: int| 0 <= j < s.len() ==> !same_identity(
                #[trigger] s[j],
                x,
            ),
        },
    decreases s.len(),
{
    if s.len() == 0 {
    } else if same_identity(s[0], x) {
    } else {
        lemma_find_identity_index(s.drop_first(), x);
        let sub = s.drop_first();
        match find_identity_index(sub, x) {
            Option::Some(i) => {
                assert(s[i + 1] == sub[i]);
                assert forall|j: int| 0 <= j < i + 1 implies !same_identity(
                    #[trigger] s[j],
                    x,
                ) by {
                    if j > 0 {
                        assert(s[j] == sub[j - 1]);
                    }
                }
            },
            Option::None => {
                assert forall|j: int| 0 <= j < s.len() implies !same_identity(
                    #[trigger] s[j],
                    x,
                ) by {
                    if j > 0 {
                        assert(s[j] == sub[j - 1]);
                    }
                }
            },
        }
    }
}

/// Adding a song to the index: it replaces the entry with its identity, or
/// comes in at the end when its identity is new.
pub open spec fn upsert(s: Seq<Song>, x: Song) -> Seq<Song> {
    match find_identity_index(s, x) {
        Option::Some(i) => s.update(i, x),
        Option::None => s.push(x),
    }
}

/// Adding a list of songs to the index, in order.
pub open spec fn upsert_all(s: Seq<Song>, xs: Seq<Song>) -> Seq<Song>
    decreases xs.len(),
{
    if xs.len() == 0 {
        s
    } else {
        upsert_all(upsert(s, xs[0]), xs.drop_first())
    }
}

fn eq_opt_string(a: &Option<String>, b: &Option<String>) -> (r: bool)
    ensures
        r == match (a, b) {
            (Option::Some(x), Option::Some(y)) => x@ == y@,
            (Option::None, Option::None) => true,
            _ => false,
        },
{
    match (a, b) {
        (Some(x), Some(y)) => x.eq(y),
        (None, None) => true,
        _ => false,
    }
}

/// Replaces the entry with this song's identity, or appends the song.
fn upsert_song(index: &mut Vec<Song>, song: Song)
    ensures
        final(index)@ == upsert(old(index)@, song),
{
    let n = index.len();
    let mut i: usize = 0;
    while i < n
        invariant
            i <= n,
            n == index@.len(),
            index@ == old(index)@,
            forall|j: int| 0 <= j < i ==> !same_identity(#[trigger] index@[j], song),
        decreases n - i,
    {
        let same = index[i].title.eq(&song.title) && eq_opt_string(&index[i].artist, &song.artist);
        if same {
            proof {
                assert(same_identity(index@[i as int], song));
                lemma_find_identity_index(index@, song);
                let k = find_identity_index(index@, song)->Some_0;
                if k < i {
                    assert(!same_identity(index@[k], song));
                }
                if k > i {
                    assert(!same_identity(index@[i as int], song));
                }
            }
            let slot = &mut index[i];
            *slot = song;
            return ;
        }
        proof {
            assert(!same_identity(index@[i as int], song));
        }
        i += 1;
    }
    proof {
        lemma_find_identity_index(index@, song);
        if !(find_identity_index(index@, song) is None) {
            let k = find_identity_index(index@, song)->Some_0;
            assert(same_identity(index@[k], song));
            assert(false);
        }
    }
    index.push(song);
}

/// Everything the application state holds between two reducer steps.
pub struct App {
    pub exit: bool,
    pub queue_shown: bool,
    pub songs: Vec<Song>,
    pub folder_handler: FolderHandler,
    pub select_handler: SelectHandler<Song>,
    pub queue_select_handler: SelectHandler<Song>,
    pub player_information: PlayerInformation,
    pub current_screen: CurrentScreen,
    pub selected_media_display_type: MediaDisplayType,
    pub search_handler: SearchHandler,
}

pub open spec fn focused(a: App) -> FocusedWindowMain {
    a.current_screen->Main_0
}

/// The reducer's invariant: every cursor is sound and the browser resolves.
pub open spec fn app_wf(a: App) -> bool {
    &&& fh_wf(a.folder_handler)
    &&& a.select_handler.wf()
    &&& a.queue_select_handler.wf()
    &&& sh_wf(a.search_handler)
}

impl App {
    /// Builds the startup state from the scanned songs: the flat index with
    /// identities de-duplicated, the folder tree grown from each song's
    /// directory, and the browse cursor over the index.
    pub fn new(scanned: Vec<Song>) -> (r: App)
        ensures
            app_wf(r),
            !r.exit,
            r.queue_shown,
            r.current_screen == CurrentScreen::Main(FocusedWindowMain::Media),
            r.selected_media_display_type == MediaDisplayType::Songs,
            r.songs@ == upsert_all(Seq::<Song>::empty(), scanned@),
            r.select_handler.spec_items() == r.songs@,
            r.folder_handler.root_folder@ == insert_songs_model(
                FolderModel {
                    name: "root"@,
                    path: Seq::<Seq<char>>::empty(),
                    children: Seq::<NodeModel>::empty(),
                },
                scanned@,
            ),
            r.player_information.queue@.len() == 0,
            r.player_information.playing_index is None,
            r.player_information.status is NoAudioSelected,
            r.queue_select_handler.spec_items().len() == 0,
            r.search_handler.query@.len() == 0,
    {
        let root = Folder::new(String::from_str("root"), Vec::new());
        proof {
            assert(root@ =~= FolderModel {
                name: "root"@,
                path: Seq::<Seq<char>>::empty(),
                children: Seq::<NodeModel>::empty(),
            });
            assert(model_wf(root@));
        }
        let mut folder_handler = FolderHandler::new(root);
        let tree_songs = clone_songs(&scanned);
        folder_handler.insert_songs(tree_songs);
        let mut songs: Vec<Song> = Vec::new();
        let ghost all = scanned@;
        let mut scanned = scanned;
        proof {
            assert(scanned@ =~= all.skip(0));
        }
        while scanned.len() > 0
            invariant
                upsert_all(songs@, scanned@) == upsert_all(Seq::<Song>::empty(), all),
            decreases scanned@.len(),
        {
            let ghost pre = scanned@;
            let s = scanned.remove(0);
            proof {
                assert(scanned@ =~= pre.drop_first());
                assert(s == pre[0]);
            }
            upsert_song(&mut songs, s);
        }
        let mut select_handler = SelectHandler::new();
        select_handler.set_items(clone_songs(&songs));
        let r = App {
            exit: false,
            queue_shown: true,
            songs,
            folder_handler,
            select_handler,
            queue_select_handler: SelectHandler::new(),
            player_information: PlayerInformation::default(),
            current_screen: CurrentScreen::Main(FocusedWindowMain::Media),
            selected_media_display_type: MediaDisplayType::Songs,
            search_handler: SearchHandler::new(),
        };
        r
    }

    /// The song the playback snapshot says is current, when its index still
    /// points into the snapshot's queue.
    pub fn get_current_song(&self) -> (r: Option<&Song>)
        ensures
            match r {
                Option::Some(s) => {
                    &&& self.player_information.playing_index matches Option::Some(i)
                    &&& i < self.player_information.queue@.len()
                    &&& *s == self.player_information.queue@[
                        self.player_information.playing_index->Some_0 as int
                    ]
                },
                Option::None => match self.player_information.playing_index {
                    Option::Some(i) => i >= self.player_information.queue@.len(),
                    Option::None => true,
                },
            },
    {
        if let Some(i) = self.player_information.playing_index {
            if i < self.player_information.queue.len() {
                Some(&self.player_information.queue[i])
            } else {
                None
            }
        } else {
            None
        }
    }

    /// Applies one playback notification to the reducer's copy of the
    /// playback state. The engine is the ground truth; this only mirrors
    /// what it announced.
    pub fn handle_player_event(&mut self, event: PlayerSendEvent)
        requires
            app_wf(*old(self)),
        ensures
            app_wf(*final(self)),
            final(self).exit == old(self).exit,
            final(self).current_screen == old(self).current_screen,
            final(self).songs == old(self).songs,
            final(self).select_handler == old(self).select_handler,
            final(self).folder_handler == old(self).folder_handler,
            final(self).search_handler == old(self).search_handler,
            match event {
                PlayerSendEvent::Play(i) => {
                    &&& final(self).player_information.playing_index == Option::Some(i)
                    &&& final(self).player_information.queue@ == old(
                        self,
                    ).player_information.queue@
                    &&& final(self).player_information.status == (if i < old(
                        self,
                    ).player_information.queue@.len() {
                        PlayerStatus::Playing(old(self).player_information.queue@[i as int])
                    } else {
                        old(self).player_information.status
                    })
                    &&& final(self).queue_select_handler == old(self).queue_select_handler
                },
                PlayerSendEvent::Pause(i) => {
                    &&& final(self).player_information.playing_index == Option::Some(i)
                    &&& final(self).player_information.queue@ == old(
                        self,
                    ).player_information.queue@
                    &&& final(self).player_information.status == (if i < old(
                        self,
                    ).player_information.queue@.len() {
                        PlayerStatus::Paused(old(self).player_information.queue@[i as int])
                    } else {
                        old(self).player_information.status
                    })
                    &&& final(self).queue_select_handler == old(self).queue_select_handler
                },
                PlayerSendEvent::TimeChanged(t) => {
                    &&& final(self).player_information == (PlayerInformation {
                        passed_time: t,
                        ..old(self).player_information
                    })
                    &&& final(self).queue_select_handler == old(self).queue_select_handler
                },
                PlayerSendEvent::QueueUpdate(q) => {
                    &&& final(self).player_information.queue@ == q@
                    &&& final(self).player_information.playing_index == old(
                        self,
                    ).player_information.playing_index
                    &&& final(self).player_information.status == old(
                        self,
                    ).player_information.status
                    &&& final(self).queue_select_handler.spec_items() == q@
                    &&& final(self).queue_select_handler.spec_selected() == if q@.len() > 0 {
                        Option::Some(0usize)
                    } else {
                        Option::None::<usize>
                    }
                },
                PlayerSendEvent::NextSong => {
                    &&& final(self).player_information.queue@ == old(
                        self,
                    ).player_information.queue@
                    &&& final(self).player_information.playing_index == (match old(
                        self,
                    ).player_information.playing_index {
                        Option::Some(i) => if i < usize::MAX {
                            Option::Some((i + 1) as usize)
                        } else {
                            Option::Some(i)
                        },
                        Option::None => Option::None::<usize>,
                    })
                    &&& final(self).queue_select_handler == old(self).queue_select_handler
                },
                PlayerSendEvent::PlayerEnded => {
                    &&& final(self).player_information.playing_index is None
                    &&& final(self).player_information.status is NoAudioSelected
                    &&& final(self).player_information.queue@ == old(
                        self,
                    ).player_information.queue@
                    &&& final(self).queue_select_handler == old(self).queue_select_handler
                },
                PlayerSendEvent::PlayerInformation(pi) => {
                    &&& final(self).player_information == pi
                    &&& final(self).queue_select_handler == old(self).queue_select_handler
                },
            },
    {
        match event {
            PlayerSendEvent::Play(playing_index) => {
                self.player_information.playing_index = Some(playing_index);
                let current = self.get_current_song();
                let song = match current {
                    Some(song) => Some(song.clone()),
                    None => None,
                };
                if let Some(song) = song {
                    self.player_information.status = PlayerStatus::Playing(song);
                }
            },
            PlayerSendEvent::Pause(playing_index) => {
                self.player_information.playing_index = Some(playing_index);
                let current = self.get_current_song();
                let song = match current {
                    Some(song) => Some(song.clone()),
                    None => None,
                };
                if let Some(song) = song {
                    self.player_information.status = PlayerStatus::Paused(song);
                }
            },
            PlayerSendEvent::TimeChanged(passed_time) => {
                self.player_information.passed_time = passed_time;
            },
            PlayerSendEvent::QueueUpdate(queue) => {
                self.player_information.queue = clone_songs(&queue);
                self.queue_select_handler.set_items(queue);
            },
            PlayerSendEvent::NextSong => {
                if let Some(i) = self.player_information.playing_index {
                    if i < usize::MAX {
                        self.player_information.playing_index = Some(i + 1);
                    }
                }
            },
            PlayerSendEvent::PlayerEnded => {
                self.player_information.playing_index = None;
                self.player_information.status = PlayerStatus::NoAudioSelected;
            },
            PlayerSendEvent::PlayerInformation(player_information) => {
                self.player_information = player_information;
            },
        }
    }
}

/// The fields no input action ever touches: they change only through
/// playback notifications or at startup.
pub open spec fn untouched_core(a: App, b: App) -> bool {
    &&& b.exit == a.exit
    &&& b.queue_shown == a.queue_shown
    &&& b.songs == a.songs
    &&& b.player_information == a.player_information
    &&& b.selected_media_display_type == a.selected_media_display_type
}

/// All input-facing state left exactly as it was.
pub open spec fn untouched_panes(a: App, b: App) -> bool {
    &&& b.select_handler == a.select_handler
    &&& b.queue_select_handler == a.queue_select_handler
    &&& b.folder_handler == a.folder_handler
    &&& b.search_handler == a.search_handler
}

/// Tab order: the media and queue panes alternate; anywhere else returns
/// to the media pane.
pub open spec fn spec_switch_window(w: FocusedWindowMain) -> FocusedWindowMain {
    match w {
        FocusedWindowMain::Media => FocusedWindowMain::Queue,
        FocusedWindowMain::Queue => FocusedWindowMain::Media,
        FocusedWindowMain::Search => FocusedWindowMain::Media,
    }
}

impl App {
    /// One reducer step for a user action on the main screen. Dispatches on
    /// the focused pane, mutates only the pane state the action addresses,
    /// and returns the player commands and searches to start, in order.
    pub fn main_screen_events(&mut self, action: Action) -> (r: Vec<AppEffect>)
        requires
            app_wf(*old(self)),
            old(self).search_handler.next_ticket < u64::MAX,
        ensures
            app_wf(*final(self)),
            untouched_core(*old(self), *final(self)),
            match action {
                Action::Quit => r@.len() == 0 && untouched_panes(*old(self), *final(self))
                    && final(self).current_screen == old(self).current_screen,
                Action::SwitchWindow => {
                    &&& r@.len() == 0
                    &&& untouched_panes(*old(self), *final(self))
                    &&& final(self).current_screen == CurrentScreen::Main(
                        spec_switch_window(focused(*old(self))),
                    )
                },
                Action::MoveUp => {
                    &&& r@.len() == 0
                    &&& final(self).current_screen == old(self).current_screen
                    &&& final(self).search_handler == old(self).search_handler
                    &&& match focused(*old(self)) {
                        FocusedWindowMain::Queue => {
                            &&& crate::selecthandler::cursor_up(
                                old(self).queue_select_handler,
                                final(self).queue_select_handler,
                            )
                            &&& final(self).select_handler == old(self).select_handler
                            &&& final(self).folder_handler == old(self).folder_handler
                        },
                        FocusedWindowMain::Media => match old(self).selected_media_display_type {
                            MediaDisplayType::Folders => {
                                &&& crate::selecthandler::cursor_up(
                                    old(self).folder_handler.select_handler,
                                    final(self).folder_handler.select_handler,
                                )
                                &&& final(self).folder_handler.root_folder == old(
                                    self,
                                ).folder_handler.root_folder
                                &&& final(self).folder_handler.path_stack == old(
                                    self,
                                ).folder_handler.path_stack
                                &&& final(self).select_handler == old(self).select_handler
                                &&& final(self).queue_select_handler == old(
                                    self,
                                ).queue_select_handler
                            },
                            MediaDisplayType::Songs => {
                                &&& crate::selecthandler::cursor_up(
                                    old(self).select_handler,
                                    final(self).select_handler,
                                )
                                &&& final(self).folder_handler == old(self).folder_handler
                                &&& final(self).queue_select_handler == old(
                                    self,
                                ).queue_select_handler
                            },
                        },
                        FocusedWindowMain::Search => untouched_panes(*old(self), *final(self)),
                    }
                },
                Action::MoveDown => {
                    &&& r@.len() == 0
                    &&& final(self).current_screen == old(self).current_screen
                    &&& final(self).search_handler == old(self).search_handler
                    &&& match focused(*old(self)) {
                        FocusedWindowMain::Queue => {
                            &&& crate::selecthandler::cursor_down(
                                old(self).queue_select_handler,
                                final(self).queue_select_handler,
                            )
                            &&& final(self).select_handler == old(self).select_handler
                            &&& final(self).folder_handler == old(self).folder_handler
                        },
                        FocusedWindowMain::Media => match old(self).selected_media_display_type {
                            MediaDisplayType::Folders => {
                                &&& crate::selecthandler::cursor_down(
                                    old(self).folder_handler.select_handler,
                                    final(self).folder_handler.select_handler,
                                )
                                &&& final(self).folder_handler.root_folder == old(
                                    self,
                                ).folder_handler.root_folder
                                &&& final(self).folder_handler.path_stack == old(
                                    self,
                                ).folder_handler.path_stack
                                &&& final(self).select_handler == old(self).select_handler
                                &&& final(self).queue_select_handler == old(
                                    self,
                                ).queue_select_handler
                            },
                            MediaDisplayType::Songs => {
                                &&& crate::selecthandler::cursor_down(
                                    old(self).select_handler,
                                    final(self).select_handler,
                                )
                                &&& final(self).folder_handler == old(self).folder_handler
                                &&& final(self).queue_select_handler == old(
                                    self,
                                ).queue_select_handler
                            },
                        },
                        FocusedWindowMain::Search => untouched_panes(*old(self), *final(self)),
                    }
                },
                Action::Select => match focused(*old(self)) {
                    FocusedWindowMain::Queue => {
                        &&& untouched_panes(*old(self), *final(self))
                        &&& final(self).current_screen == old(self).current_screen
                        &&& match old(self).queue_select_handler.spec_selected() {
                            Option::Some(i) => r@ =~= seq![
                                AppEffect::SendPlayer(PlayerReceiveEvent::SetAndPlaySong(i)),
                            ],
                            Option::None => r@.len() == 0,
                        }
                    },
                    FocusedWindowMain::Media => {
                        &&& final(self).current_screen == old(self).current_screen
                        &&& final(self).search_handler == old(self).search_handler
                        &&& final(self).select_handler == old(self).select_handler
                        &&& final(self).queue_select_handler == old(self).queue_select_handler
                        &&& match old(self).selected_media_display_type {
                            MediaDisplayType::Songs => {
                                &&& final(self).folder_handler == old(self).folder_handler
                                &&& match old(self).select_handler.spec_selected() {
                                    Option::Some(i) => {
                                        &&& r@.len() == 1
                                        &&& (r@[0] matches AppEffect::SendPlayer(
                                            PlayerReceiveEvent::CreateQueueAndPlay(q),
                                        ) && q@ == spec_rotated(
                                            old(self).select_handler.spec_items(),
                                            i as int,
                                        ))
                                    },
                                    Option::None => r@.len() == 0,
                                }
                            },
                            MediaDisplayType::Folders => match old(
                                self,
                            ).folder_handler.select_handler.spec_selected() {
                                Option::None => r@.len() == 0 && final(self).folder_handler
                                    == old(self).folder_handler,
                                Option::Some(i) => match fh_current(
                                    old(self).folder_handler,
                                ).children[i as int] {
                                    NodeModel::Song(s) => {
                                        &&& r@.len() == 1
                                        &&& (r@[0] matches AppEffect::SendPlayer(
                                            PlayerReceiveEvent::CreateQueueAndPlay(q),
                                        ) && q@ =~= seq![s])
                                        &&& final(self).folder_handler == old(
                                            self,
                                        ).folder_handler
                                    },
                                    NodeModel::Folder(g) => {
                                        &&& r@.len() == 0
                                        &&& final(self).folder_handler.path_stack.deep_view()
                                            == old(
                                            self,
                                        ).folder_handler.path_stack.deep_view().push(
                                            g.path.last(),
                                        )
                                        &&& fh_current(final(self).folder_handler).path
                                            == g.path
                                        &&& final(self).folder_handler.root_folder == old(
                                            self,
                                        ).folder_handler.root_folder
                                    },
                                },
                            },
                        }
                    },
                    FocusedWindowMain::Search => {
                        &&& final(self).current_screen == CurrentScreen::Main(
                            FocusedWindowMain::Media,
                        )
                        &&& final(self).select_handler == old(self).select_handler
                        &&& final(self).queue_select_handler == old(self).queue_select_handler
                        &&& final(self).folder_handler == old(self).folder_handler
                        &&& final(self).search_handler.running_ticket == Option::Some(
                            old(self).search_handler.next_ticket,
                        )
                        &&& final(self).search_handler.next_ticket == old(
                            self,
                        ).search_handler.next_ticket + 1
                        &&& final(self).search_handler.query@ == old(self).search_handler.query@
                        &&& final(self).search_handler.select_handler == old(
                            self,
                        ).search_handler.select_handler
                        &&& r@.len() == 1
                        &&& (r@[0] matches AppEffect::StartSearch(t, q) && t == old(
                            self,
                        ).search_handler.next_ticket && q@ == old(self).search_handler.query@)
                    },
                },
                Action::Char(c) => {
                    &&& final(self).current_screen == (if focused(*old(self))
                        != FocusedWindowMain::Search && c == 'f' {
                        CurrentScreen::Main(FocusedWindowMain::Search)
                    } else {
                        old(self).current_screen
                    })
                    &&& final(self).select_handler == old(self).select_handler
                    &&& final(self).queue_select_handler == old(self).queue_select_handler
                    &&& final(self).folder_handler == old(self).folder_handler
                    &&& match focused(*old(self)) {
                        FocusedWindowMain::Search => {
                            &&& final(self).search_handler.query@ == old(
                                self,
                            ).search_handler.query@.push(c)
                            &&& final(self).search_handler.select_handler == old(
                                self,
                            ).search_handler.select_handler
                            &&& final(self).search_handler.next_ticket == old(
                                self,
                            ).search_handler.next_ticket
                            &&& final(self).search_handler.running_ticket == old(
                                self,
                            ).search_handler.running_ticket
                            &&& r@.len() == 0
                        },
                        FocusedWindowMain::Media => {
                            &&& final(self).search_handler == old(self).search_handler
                            &&& if old(self).selected_media_display_type
                                == MediaDisplayType::Folders && c == 'a' {
                                match old(self).folder_handler.select_handler.spec_selected() {
                                    Option::None => r@.len() == 0,
                                    Option::Some(i) => match fh_current(
                                        old(self).folder_handler,
                                    ).children[i as int] {
                                        NodeModel::Folder(g) => {
                                            &&& r@.len() == 1
                                            &&& (r@[0] matches AppEffect::SendPlayer(
                                                PlayerReceiveEvent::AddSongsToQueueAndPlay(q),
                                            ) && q@ == spec_songs_of(g.children))
                                        },
                                        NodeModel::Song(s) => {
                                            &&& r@.len() == 1
                                            &&& (r@[0] matches AppEffect::SendPlayer(
                                                PlayerReceiveEvent::AddSongsToQueueAndPlay(q),
                                            ) && q@ =~= seq![s])
                                        },
                                    },
                                }
                            } else {
                                r@.len() == 0
                            }
                        },
                        FocusedWindowMain::Queue => {
                            &&& final(self).search_handler == old(self).search_handler
                            &&& r@.len() == 0
                        },
                    }
                },
                Action::Backspace => {
                    &&& r@.len() == 0
                    &&& final(self).current_screen == old(self).current_screen
                    &&& final(self).select_handler == old(self).select_handler
                    &&& final(self).queue_select_handler == old(self).queue_select_handler
                    &&& match focused(*old(self)) {
                        FocusedWindowMain::Search => {
                            &&& final(self).folder_handler == old(self).folder_handler
                            &&& final(self).search_handler.query@ == (if old(
                                self,
                            ).search_handler.query@.len() > 0 {
                                old(self).search_handler.query@.drop_last()
                            } else {
                                old(self).search_handler.query@
                            })
                            &&& final(self).search_handler.select_handler == old(
                                self,
                            ).search_handler.select_handler
                            &&& final(self).search_handler.next_ticket == old(
                                self,
                            ).search_handler.next_ticket
                            &&& final(self).search_handler.running_ticket == old(
                                self,
                            ).search_handler.running_ticket
                        },
                        FocusedWindowMain::Media => {
                            &&& final(self).search_handler == old(self).search_handler
                            &&& if old(self).selected_media_display_type
                                == MediaDisplayType::Folders {
                                &&& final(self).folder_handler.root_folder == old(
                                    self,
                                ).folder_handler.root_folder
                                &&& final(self).folder_handler.path_stack@ == (if old(
                                    self,
                                ).folder_handler.path_stack@.len() > 0 {
                                    old(self).folder_handler.path_stack@.drop_last()
                                } else {
                                    old(self).folder_handler.path_stack@
                                })
                            } else {
                                final(self).folder_handler == old(self).folder_handler
                            }
                        },
                        FocusedWindowMain::Queue => untouched_panes(*old(self), *final(self)),
                    }
                },
                Action::Esc => {
                    &&& r@.len() == 0
                    &&& untouched_panes(*old(self), *final(self))
                    &&& final(self).current_screen == (if focused(*old(self))
                        == FocusedWindowMain::Search {
                        CurrentScreen::Main(FocusedWindowMain::Media)
                    } else {
                        old(self).current_screen
                    })
                },
                Action::Space => {
                    &&& final(self).current_screen == old(self).current_screen
                    &&& final(self).select_handler == old(self).select_handler
                    &&& final(self).queue_select_handler == old(self).queue_select_handler
                    &&& final(self).folder_handler == old(self).folder_handler
                    &&& if focused(*old(self)) == FocusedWindowMain::Search {
                        &&& final(self).search_handler.query@ == old(
                            self,
                        ).search_handler.query@.push(' ')
                        &&& final(self).search_handler.select_handler == old(
                            self,
                        ).search_handler.select_handler
                        &&& final(self).search_handler.next_ticket == old(
                            self,
                        ).search_handler.next_ticket
                        &&& final(self).search_handler.running_ticket == old(
                            self,
                        ).search_handler.running_ticket
                        &&& r@.len() == 0
                    } else {
                        &&& final(self).search_handler == old(self).search_handler
                        &&& r@ =~= seq![
                            AppEffect::SendPlayer(PlayerReceiveEvent::TogglePause),
                        ]
                    }
                },
                Action::PreviousSong => {
                    &&& untouched_panes(*old(self), *final(self))
                    &&& final(self).current_screen == old(self).current_screen
                    &&& r@ =~= seq![AppEffect::SendPlayer(PlayerReceiveEvent::Previous)]
                },
                Action::NextSong => {
                    &&& untouched_panes(*old(self), *final(self))
                    &&& final(self).current_screen == old(self).current_screen
                    &&& r@ =~= seq![AppEffect::SendPlayer(PlayerReceiveEvent::Next)]
                },
            },
    {
        let mut effects: Vec<AppEffect> = Vec::new();
        let focused_window = match self.current_screen {
            CurrentScreen::Main(w) => w,
        };
        match action {
            Action::SwitchWindow => {
                self.current_screen = CurrentScreen::Main(
                    match focused_window {
                        FocusedWindowMain::Media => FocusedWindowMain::Queue,
                        FocusedWindowMain::Queue => FocusedWindowMain::Media,
                        FocusedWindowMain::Search => FocusedWindowMain::Media,
                    },
                );
            },
            Action::MoveUp => {
                match focused_window {
                    FocusedWindowMain::Queue => self.queue_select_handler.up(),
                    FocusedWindowMain::Media => {
                        match self.selected_media_display_type {
                            MediaDisplayType::Folders => self.folder_handler.select_handler_up(),
                            MediaDisplayType::Songs => self.select_handler.up(),
                        }
                    },
                    FocusedWindowMain::Search => {},
                }
            },
            Action::MoveDown => {
                match focused_window {
                    FocusedWindowMain::Queue => self.queue_select_handler.down(),
                    FocusedWindowMain::Media => {
                        match self.selected_media_display_type {
                            MediaDisplayType::Folders => self.folder_handler.select_handler_down(),
                            MediaDisplayType::Songs => self.select_handler.down(),
                        }
                    },
                    FocusedWindowMain::Search => {},
                }
            },
            Action::Select => {
                match focused_window {
                    FocusedWindowMain::Queue => {
                        if let Some(index) = self.queue_select_handler.selected_index() {
                            effects.push(
                                AppEffect::SendPlayer(PlayerReceiveEvent::SetAndPlaySong(index)),
                            );
                        }
                    },
                    FocusedWindowMain::Media => {
                        match self.selected_media_display_type {
                            MediaDisplayType::Songs => {
                                if let Some(index) = self.select_handler.selected_index() {
                                    let queue = self.select_handler.split_rotated_at(index);
                                    proof {
                                        let rot = spec_rotated(
                                            self.select_handler.spec_items(),
                                            index as int,
                                        );
                                        assert forall|j: int|
                                            0 <= j < queue@.len() implies queue@[j] == rot[j] by {
                                            assert(cloned::<Song>(rot[j], queue@[j]));
                                        }
                                        assert(queue@ =~= rot);
                                    }
                                    effects.push(
                                        AppEffect::SendPlayer(
                                            PlayerReceiveEvent::CreateQueueAndPlay(queue),
                                        ),
                                    );
                                }
                            },
                            MediaDisplayType::Folders => {
                                let song = self.folder_handler.select_handler_select();
                                if let Some(song) = song {
                                    let mut one: Vec<Song> = Vec::new();
                                    one.push(song);
                                    effects.push(
                                        AppEffect::SendPlayer(
                                            PlayerReceiveEvent::CreateQueueAndPlay(one),
                                        ),
                                    );
                                }
                            },
                        }
                    },
                    FocusedWindowMain::Search => {
                        let (ticket, query) = self.search_handler.search();
                        effects.push(AppEffect::StartSearch(ticket, query));
                        self.current_screen = CurrentScreen::Main(FocusedWindowMain::Media);
                    },
                }
            },
            Action::Char(c) => {
                match focused_window {
                    FocusedWindowMain::Search => {
                        self.search_handler.add_char_to_query(c);
                    },
                    FocusedWindowMain::Media => {
                        let folders = matches!(
                            self.selected_media_display_type,
                            MediaDisplayType::Folders
                        );
                        if folders && c == 'a' {
                            match self.folder_handler.select_handler_selected() {
                                Some(node) => {
                                    match node {
                                        Node::Folder(folder) => {
                                            let queue = songs_of_children(folder.get_children());
                                            effects.push(
                                                AppEffect::SendPlayer(
                                                    PlayerReceiveEvent::AddSongsToQueueAndPlay(
                                                        queue,
                                                    ),
                                                ),
                                            );
                                        },
                                        Node::Song(song) => {
                                            let mut one: Vec<Song> = Vec::new();
                                            one.push(song.clone());
                                            effects.push(
                                                AppEffect::SendPlayer(
                                                    PlayerReceiveEvent::AddSongsToQueueAndPlay(
                                                        one,
                                                    ),
                                                ),
                                            );
                                        },
                                    }
                                },
                                None => {},
                            }
                        }
                    },
                    FocusedWindowMain::Queue => {},
                }
                let in_search = matches!(focused_window, FocusedWindowMain::Search);
                if !in_search && c == 'f' {
                    self.current_screen = CurrentScreen::Main(FocusedWindowMain::Search);
                }
            },
            Action::Backspace => {
                match focused_window {
                    FocusedWindowMain::Search => {
                        self.search_handler.remove_last_char();
                    },
                    FocusedWindowMain::Media => {
                        match self.selected_media_display_type {
                            MediaDisplayType::Folders => {
                                self.folder_handler.go_to_parent();
                            },
                            MediaDisplayType::Songs => {},
                        }
                    },
                    FocusedWindowMain::Queue => {},
                }
            },
            Action::Esc => {
                match focused_window {
                    FocusedWindowMain::Search => {
                        self.current_screen = CurrentScreen::Main(FocusedWindowMain::Media);
                    },
                    _ => {},
                }
            },
            Action::Space => {
                match focused_window {
                    FocusedWindowMain::Search => {
                        self.search_handler.add_char_to_query(' ');
                    },
                    _ => {
                        effects.push(AppEffect::SendPlayer(PlayerReceiveEvent::TogglePause));
                    },
                }
            },
            Action::PreviousSong => {
                effects.push(AppEffect::SendPlayer(PlayerReceiveEvent::Previous));
            },
            Action::NextSong => {
                effects.push(AppEffect::SendPlayer(PlayerReceiveEvent::Next));
            },
            Action::Quit => {},
        }
        effects
    }
}

} // verus!
