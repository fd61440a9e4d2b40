//! The session as a mathematical state machine: the state that a key press,
//! a timer tick or the answer to a remote call acts on, and what each of them
//! does to it.

use vstd::prelude::*;
use crate::app::{FocusedPane, SEARCH_DEBOUNCE_MS};
use crate::keys::{KeyCode, KeyEvent};
use crate::selection::{Move, Selection};
use crate::spotify::{CurrentlyPlaying, Playlist, Queue, SpotifyClient, Track};

verus! {

/// The coarse state of the session, with the text of an error as characters.
pub enum Phase {
    Authenticating,
    Loading,
    Ready,
    Error(Seq<char>),
}

/// What the session asks its driver to do after an event.
pub enum ActionView {
    Nothing,
    /// Fetch the tracks of the playlist with this id.
    LoadPlaylistTracks(Seq<char>),
    /// Play the track with this URI.
    PlayTrack(Seq<char>),
    /// Append the track with this URI to the play queue.
    AddToQueue(Seq<char>),
    PausePlayback,
    ResumePlayback,
    NextTrack,
    PreviousTrack,
}

/// Number of entries of the playback menu: play or pause, previous, next, close.
pub const PLAYBACK_MENU_LEN: usize = 4;

/// The session's state.
pub struct AppView {
    pub spotify_client: SpotifyClient,
    pub playlists: Seq<Playlist>,
    pub current_tracks: Seq<Track>,
    pub search_results: Seq<Track>,
    pub currently_playing: Option<CurrentlyPlaying>,
    pub queue: Option<Queue>,
    pub playlists_state: Selection,
    pub tracks_state: Selection,
    pub search_state: Selection,
    pub focused_pane: FocusedPane,
    pub show_search: bool,
    pub search_input: Seq<char>,
    pub show_playback_controls: bool,
    pub playback_controls_state: Selection,
    pub show_help: bool,
    pub state: Phase,
    pub should_quit: bool,
    pub last_search_time: Option<u64>,
    pub search_debounce_ms: u64,
}

/// The state after an event, and what the event asks the driver to do.
pub struct Step {
    pub next: AppView,
    pub action: ActionView,
}

/// Milliseconds from `since` to `now`; zero when `now` lies before `since`.
pub open spec fn elapsed_ms(since: u64, now: u64) -> u64 {
    if now >= since {
        (now - since) as u64
    } else {
        0
    }
}

impl AppView {
    /// The state of a session that has just been created around `client`.
    pub open spec fn initial(client: SpotifyClient) -> AppView {
        AppView {
            spotify_client: client,
            playlists: Seq::empty(),
            current_tracks: Seq::empty(),
            search_results: Seq::empty(),
            currently_playing: None,
            queue: None,
            playlists_state: Selection { index: Some(0) },
            tracks_state: Selection { index: Some(0) },
            search_state: Selection { index: Some(0) },
            focused_pane: FocusedPane::Playlists,
            show_search: false,
            search_input: Seq::empty(),
            show_playback_controls: false,
            playback_controls_state: Selection { index: Some(0) },
            show_help: false,
            state: Phase::Authenticating,
            should_quit: false,
            last_search_time: None,
            search_debounce_ms: SEARCH_DEBOUNCE_MS,
        }
    }

    /// The state holds what its parts promise each other:
    /// every cursor lies inside its list, the search box has the focus only
    /// while the search bar is shown, and an empty query has neither a pending
    /// search nor results.
    pub open spec fn wf(self) -> bool {
        &&& self.playlists_state.in_bounds(self.playlists.len())
        &&& self.tracks_state.in_bounds(self.current_tracks.len())
        &&& self.search_state.in_bounds(self.search_results.len())
        &&& self.playback_controls_state.in_bounds(PLAYBACK_MENU_LEN as nat)
        &&& self.focused_pane == FocusedPane::SearchInput ==> self.show_search
        &&& self.search_input.len() == 0 ==> self.last_search_time is None
            && self.search_results.len() == 0
    }

    /// The event changes nothing and asks for nothing.
    pub open spec fn stay(self) -> Step {
        Step { next: self, action: ActionView::Nothing }
    }

    /// The tracks that the track pane shows: the search results while the
    /// search bar is shown, the tracks of the playlist otherwise.
    pub open spec fn display_tracks(self) -> Seq<Track> {
        if self.show_search {
            self.search_results
        } else {
            self.current_tracks
        }
    }

    /// The cursor of the list that the track pane shows.
    pub open spec fn display_selection(self) -> Selection {
        if self.show_search {
            self.search_state
        } else {
            self.tracks_state
        }
    }

    /// The URI of the highlighted track of the track pane, if a row is
    /// highlighted and lies inside the list.
    pub open spec fn selected_uri(self) -> Option<Seq<char>> {
        match self.display_selection().index {
            Some(i) => if i < self.display_tracks().len() {
                Some(self.display_tracks()[i as int].uri@)
            } else {
                None
            },
            None => None,
        }
    }

    /// Asks to play the highlighted track, if there is one.
    pub open spec fn play_selected(self) -> ActionView {
        match self.selected_uri() {
            Some(uri) => ActionView::PlayTrack(uri),
            None => ActionView::Nothing,
        }
    }

    /// Asks to queue the highlighted track, if there is one.
    pub open spec fn enqueue_selected(self) -> ActionView {
        match self.selected_uri() {
            Some(uri) => ActionView::AddToQueue(uri),
            None => ActionView::Nothing,
        }
    }

    /// The pane that Tab moves the focus to.
    pub open spec fn next_pane(self) -> FocusedPane {
        match self.focused_pane {
            FocusedPane::Playlists => FocusedPane::Tracks,
            FocusedPane::Tracks => if self.show_search {
                FocusedPane::SearchInput
            } else {
                FocusedPane::Playlists
            },
            FocusedPane::SearchInput => FocusedPane::Playlists,
        }
    }

    /// Any key closes the error popup and does nothing else.
    pub open spec fn dismiss_error(self) -> Step {
        Step { next: AppView { state: Phase::Ready, ..self }, action: ActionView::Nothing }
    }

    /// While the help popup is shown, Esc and `?` close it; no other key acts.
    pub open spec fn on_help_key(self, key: KeyEvent) -> Step {
        if key.code == KeyCode::Esc || key.code == KeyCode::Char('?') {
            Step { next: AppView { show_help: false, ..self }, action: ActionView::Nothing }
        } else {
            self.stay()
        }
    }

    /// What Enter does on the highlighted entry of the playback menu.
    pub open spec fn invoke_playback_entry(self) -> Step {
        match self.playback_controls_state.index {
            Some(i) => if i == 0 {
                Step {
                    next: self,
                    action: if self.currently_playing matches Some(playing) && playing.is_playing {
                        ActionView::PausePlayback
                    } else {
                        ActionView::ResumePlayback
                    },
                }
            } else if i == 1 {
                Step { next: self, action: ActionView::PreviousTrack }
            } else if i == 2 {
                Step { next: self, action: ActionView::NextTrack }
            } else if i == 3 {
                Step {
                    next: AppView { show_playback_controls: false, ..self },
                    action: ActionView::Nothing,
                }
            } else {
                self.stay()
            },
            None => self.stay(),
        }
    }

    /// While the playback menu is shown it takes every key: Esc closes it,
    /// up and down move its cursor, Enter invokes the highlighted entry.
    pub open spec fn on_playback_controls_key(self, key: KeyEvent) -> Step {
        if key.code == KeyCode::Esc {
            Step {
                next: AppView { show_playback_controls: false, ..self },
                action: ActionView::Nothing,
            }
        } else if key.is_up() {
            Step {
                next: AppView {
                    playback_controls_state: self.playback_controls_state.moved_up(
                        PLAYBACK_MENU_LEN as nat,
                    ),
                    ..self
                },
                action: ActionView::Nothing,
            }
        } else if key.is_down() {
            Step {
                next: AppView {
                    playback_controls_state: self.playback_controls_state.moved_down(
                        PLAYBACK_MENU_LEN as nat,
                    ),
                    ..self
                },
                action: ActionView::Nothing,
            }
        } else if key.code == KeyCode::Enter {
            self.invoke_playback_entry()
        } else {
            self.stay()
        }
    }

    /// Tab moves the focus to the next pane.
    pub open spec fn cycle_focus(self) -> Step {
        Step { next: AppView { focused_pane: self.next_pane(), ..self }, action: ActionView::Nothing }
    }

    /// `s` shows the search bar with an empty query and no results, and gives
    /// it the focus.
    pub open spec fn open_search(self) -> Step {
        Step {
            next: AppView {
                show_search: true,
                search_input: Seq::empty(),
                search_results: Seq::empty(),
                focused_pane: FocusedPane::SearchInput,
                last_search_time: None,
                ..self
            },
            action: ActionView::Nothing,
        }
    }

    /// Esc hides the search bar, drops query, results and pending search, and
    /// gives the focus to the playlists.
    pub open spec fn close_search(self) -> Step {
        Step {
            next: AppView {
                show_search: false,
                search_input: Seq::empty(),
                search_results: Seq::empty(),
                focused_pane: FocusedPane::Playlists,
                last_search_time: None,
                ..self
            },
            action: ActionView::Nothing,
        }
    }

    /// Enter in the search box moves on to the results, if there are any, and
    /// highlights the first of them.
    pub open spec fn enter_results(self) -> Step {
        if self.search_results.len() > 0 {
            Step {
                next: AppView {
                    focused_pane: FocusedPane::Tracks,
                    search_state: Selection { index: Some(0) },
                    ..self
                },
                action: ActionView::Nothing,
            }
        } else {
            self.stay()
        }
    }

    /// A typed character joins the query and restarts the wait before the
    /// search is sent.
    pub open spec fn type_char(self, c: char, now: u64) -> Step {
        Step {
            next: AppView {
                search_input: self.search_input.push(c),
                last_search_time: Some(now),
                ..self
            },
            action: ActionView::Nothing,
        }
    }

    /// Backspace drops the last character of the query. A query that is empty
    /// afterwards has no results and no pending search; any other restarts
    /// the wait.
    pub open spec fn erase_char(self, now: u64) -> Step {
        let query = if self.search_input.len() > 0 {
            self.search_input.drop_last()
        } else {
            self.search_input
        };
        if query.len() == 0 {
            Step {
                next: AppView {
                    search_input: query,
                    search_results: Seq::empty(),
                    last_search_time: None,
                    ..self
                },
                action: ActionView::Nothing,
            }
        } else {
            Step {
                next: AppView { search_input: query, last_search_time: Some(now), ..self },
                action: ActionView::Nothing,
            }
        }
    }

    /// Enter while the search bar is shown.
    pub open spec fn search_enter(self) -> Step {
        match self.focused_pane {
            FocusedPane::SearchInput => self.enter_results(),
            FocusedPane::Tracks => Step { next: self, action: self.play_selected() },
            FocusedPane::Playlists => if self.search_results.len() > 0 {
                Step {
                    next: AppView { focused_pane: FocusedPane::Tracks, ..self },
                    action: self.play_selected(),
                }
            } else {
                self.stay()
            },
        }
    }

    /// Up or down while the search bar is shown: the cursor of the results
    /// moves if they have the focus.
    pub open spec fn search_navigate(self, step: Move) -> Step {
        if self.focused_pane == FocusedPane::Tracks {
            Step {
                next: AppView {
                    search_state: self.search_state.moved(step, self.search_results.len()),
                    ..self
                },
                action: ActionView::Nothing,
            }
        } else {
            self.stay()
        }
    }

    /// A key while the search bar is shown.
    pub open spec fn on_search_key(self, key: KeyEvent, now: u64) -> Step {
        if key.code == KeyCode::Esc {
            self.close_search()
        } else if key.code == KeyCode::Enter {
            self.search_enter()
        } else if key.is_up() {
            self.search_navigate(Move::Up)
        } else if key.is_down() {
            self.search_navigate(Move::Down)
        } else if key.code == KeyCode::Char('+') {
            if self.focused_pane == FocusedPane::Tracks {
                Step { next: self, action: self.enqueue_selected() }
            } else {
                self.stay()
            }
        } else if key.typed() is Some {
            if self.focused_pane == FocusedPane::SearchInput {
                self.type_char(key.typed()->0, now)
            } else {
                self.stay()
            }
        } else if key.code == KeyCode::Backspace {
            if self.focused_pane == FocusedPane::SearchInput {
                self.erase_char(now)
            } else {
                self.stay()
            }
        } else if key.code == KeyCode::Tab {
            self.cycle_focus()
        } else {
            self.stay()
        }
    }

    /// Up or down in the playlists: the cursor moves, and where it did, the
    /// tracks of the playlist it came to rest on are asked for.
    pub open spec fn playlists_navigate(self, step: Move) -> Step {
        let moved = self.playlists_state.moved(step, self.playlists.len());
        if moved != self.playlists_state {
            Step {
                next: AppView { playlists_state: moved, ..self },
                action: if moved.position() < self.playlists.len() {
                    ActionView::LoadPlaylistTracks(self.playlists[moved.position() as int].id@)
                } else {
                    ActionView::Nothing
                },
            }
        } else {
            self.stay()
        }
    }

    /// Up or down while no popup and no search bar is shown.
    pub open spec fn browse_navigate(self, step: Move) -> Step {
        match self.focused_pane {
            FocusedPane::Playlists => self.playlists_navigate(step),
            FocusedPane::Tracks => Step {
                next: AppView {
                    tracks_state: self.tracks_state.moved(step, self.current_tracks.len()),
                    ..self
                },
                action: ActionView::Nothing,
            },
            FocusedPane::SearchInput => self.stay(),
        }
    }

    /// Enter while no popup and no search bar is shown.
    pub open spec fn browse_enter(self) -> Step {
        match self.focused_pane {
            FocusedPane::Tracks => Step { next: self, action: self.play_selected() },
            FocusedPane::SearchInput => self.enter_results(),
            FocusedPane::Playlists => self.stay(),
        }
    }

    /// A key while no popup and no search bar is shown.
    pub open spec fn on_browse_key(self, key: KeyEvent) -> Step {
        if key.code == KeyCode::Char('q') {
            Step { next: AppView { should_quit: true, ..self }, action: ActionView::Nothing }
        } else if key.code == KeyCode::Char('s') {
            self.open_search()
        } else if key.code == KeyCode::Char(' ') {
            Step {
                next: AppView {
                    show_playback_controls: true,
                    playback_controls_state: Selection { index: Some(0) },
                    ..self
                },
                action: ActionView::Nothing,
            }
        } else if key.code == KeyCode::Char('?') {
            Step { next: AppView { show_help: true, ..self }, action: ActionView::Nothing }
        } else if key.is_up() {
            self.browse_navigate(Move::Up)
        } else if key.is_down() {
            self.browse_navigate(Move::Down)
        } else if key.code == KeyCode::Tab {
            self.cycle_focus()
        } else if key.code == KeyCode::Enter {
            self.browse_enter()
        } else if key.code == KeyCode::Char('+') {
            if self.focused_pane == FocusedPane::Tracks {
                Step { next: self, action: self.enqueue_selected() }
            } else {
                self.stay()
            }
        } else {
            self.stay()
        }
    }

    /// What a key press at time `now` does. An error popup takes the key
    /// first, then the help popup, then the playback menu, then the search
    /// bar; what is left goes to the panes.
    pub open spec fn on_key(self, key: KeyEvent, now: u64) -> Step {
        if self.state is Error {
            self.dismiss_error()
        } else if self.show_help {
            self.on_help_key(key)
        } else if self.show_playback_controls {
            self.on_playback_controls_key(key)
        } else if self.show_search {
            self.on_search_key(key, now)
        } else {
            self.on_browse_key(key)
        }
    }

    /// Whether a search is pending and has waited out the quiet interval.
    pub open spec fn search_due(self, now: u64) -> bool {
        self.last_search_time matches Some(since) && elapsed_ms(since, now)
            >= self.search_debounce_ms
    }

    /// The query to send at time `now`: the text of the search box, when a
    /// search is due and the box is not empty.
    pub open spec fn search_to_send(self, now: u64) -> Option<Seq<char>> {
        if self.search_due(now) && self.search_input.len() > 0 {
            Some(self.search_input)
        } else {
            None
        }
    }

    /// The state after the pending search was looked at, at time `now`: a
    /// search that is due is no longer pending, whether or not it is sent.
    pub open spec fn after_search_check(self, now: u64) -> AppView {
        if self.search_due(now) {
            AppView { last_search_time: None, ..self }
        } else {
            self
        }
    }

    /// The state once the playlists are being fetched: a session that is
    /// ready starts loading, any other stays as it is.
    pub open spec fn loading(self) -> AppView {
        if self.state is Ready {
            AppView { state: Phase::Loading, ..self }
        } else {
            self
        }
    }

    /// The state with an error popup that shows `message`.
    pub open spec fn failed(self, message: Seq<char>) -> AppView {
        AppView { state: Phase::Error(message), ..self }
    }

    /// The state after a search came back with `results`: they replace the
    /// old ones and nothing is highlighted. Results for a box that has been
    /// emptied in the meantime are dropped.
    pub open spec fn with_search_results(self, results: Seq<Track>) -> AppView {
        if self.search_input.len() > 0 {
            AppView { search_results: results, search_state: Selection { index: None }, ..self }
        } else {
            self
        }
    }

    /// The state after the tracks of a playlist arrived: they are shown with
    /// the first one highlighted, and loading, if it was going on, is over.
    pub open spec fn with_tracks(self, tracks: Seq<Track>) -> AppView {
        AppView {
            current_tracks: tracks,
            tracks_state: Selection { index: Some(0) },
            state: if self.state is Loading {
                Phase::Ready
            } else {
                self.state
            },
            ..self
        }
    }

    /// The state after the playlists arrived, and the request for the tracks
    /// of the first of them. Without playlists, loading is over at once.
    pub open spec fn with_playlists(self, playlists: Seq<Playlist>) -> Step {
        if playlists.len() > 0 {
            Step {
                next: AppView {
                    playlists,
                    playlists_state: Selection { index: Some(0) },
                    ..self
                },
                action: ActionView::LoadPlaylistTracks(playlists[0].id@),
            }
        } else {
            Step {
                next: AppView {
                    playlists,
                    playlists_state: Selection { index: Some(0) },
                    state: Phase::Ready,
                    ..self
                },
                action: ActionView::Nothing,
            }
        }
    }
}

} // verus!
