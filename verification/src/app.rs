//! The running session: what is loaded, what is shown, what is highlighted,
//! and how keys, timers and the answers of the music service change it.
//!
//! The session performs no input or output itself. Each event is handed to
//! it as a plain value; it updates its state and answers with the
//! [`Action`] that its driver is to perform.

use vstd::prelude::*;
use crate::error::ApiError;
use crate::keys::{KeyCode, KeyEvent};
use crate::laws::lemma_key_keeps_wf;
use crate::selection::{Move, Selection};
use crate::session::{elapsed_ms, ActionView, AppView, Phase, PLAYBACK_MENU_LEN};
use crate::spotify::{CurrentlyPlaying, Playlist, Queue, SpotifyClient, Track};
use crate::text::{joined, text_of};

verus! {

/// Which pane takes the keyboard.
#[derive(Debug, Clone, Copy, PartialEq, Eq)]
pub enum FocusedPane {
    Playlists,
    Tracks,
    SearchInput,
}

/// The coarse state of the session.
#[derive(Debug, Clone, PartialEq, Eq)]
pub enum AppState {
    Authenticating,
    Loading,
    Ready,
    Error(String),
}

impl View for AppState {
    type V = Phase;

    open spec fn view(&self) -> Phase {
        match self {
            AppState::Authenticating => Phase::Authenticating,
            AppState::Loading => Phase::Loading,
            AppState::Ready => Phase::Ready,
            AppState::Error(message) => Phase::Error(message@),
        }
    }
}

/// What the session asks its driver to do after an event.
#[derive(Debug, Clone, PartialEq, Eq)]
pub enum Action {
    Nothing,
    /// Fetch the tracks of the playlist with this id and hand them to
    /// [`App::playlist_tracks_loaded`].
    LoadPlaylistTracks(String),
    /// Play the track with this URI and hand the result to
    /// [`App::command_finished`].
    PlayTrack(String),
    /// Append the track with this URI to the play queue and hand the result
    /// to [`App::queue_add_finished`].
    AddToQueue(String),
    PausePlayback,
    ResumePlayback,
    NextTrack,
    PreviousTrack,
}

impl View for Action {
    type V = ActionView;

    open spec fn view(&self) -> ActionView {
        match self {
            Action::Nothing => ActionView::Nothing,
            Action::LoadPlaylistTracks(id) => ActionView::LoadPlaylistTracks(id@),
            Action::PlayTrack(uri) => ActionView::PlayTrack(uri@),
            Action::AddToQueue(uri) => ActionView::AddToQueue(uri@),
            Action::PausePlayback => ActionView::PausePlayback,
            Action::ResumePlayback => ActionView::ResumePlayback,
            Action::NextTrack => ActionView::NextTrack,
            Action::PreviousTrack => ActionView::PreviousTrack,
        }
    }
}

/// Milliseconds of quiet after the last edit of the query before it is sent.
pub const SEARCH_DEBOUNCE_MS: u64 = 500;

/// Milliseconds between two looks at what is playing and at the queue.
pub const PLAYBACK_POLL_MS: u64 = 2000;

/// Milliseconds between two renewals of the access token.
pub const TOKEN_REFRESH_MS: u64 = 600000;

/// Milliseconds that one iteration of the loop waits for a key.
pub const INPUT_WAIT_MS: u64 = 50;

/// The session.
pub struct App {
    pub spotify_client: SpotifyClient,
    pub playlists: Vec<Playlist>,
    pub current_tracks: Vec<Track>,
    pub search_results: Vec<Track>,
    pub currently_playing: Option<CurrentlyPlaying>,
    pub queue: Option<Queue>,
    pub playlists_state: Selection,
    pub tracks_state: Selection,
    pub search_state: Selection,
    pub focused_pane: FocusedPane,
    pub show_search: bool,
    pub search_input: String,
    pub show_playback_controls: bool,
    pub playback_controls_state: Selection,
    pub show_help: bool,
    pub state: AppState,
    pub should_quit: bool,
    /// When the query was last edited, in milliseconds on the driver's
    /// clock, while a search for it is still to be sent.
    pub last_search_time: Option<u64>,
    pub search_debounce_ms: u64,
}

impl View for App {
    type V = AppView;

    open spec fn view(&self) -> AppView {
        AppView {
            spotify_client: self.spotify_client,
            playlists: self.playlists@,
            current_tracks: self.current_tracks@,
            search_results: self.search_results@,
            currently_playing: self.currently_playing,
            queue: self.queue,
            playlists_state: self.playlists_state,
            tracks_state: self.tracks_state,
            search_state: self.search_state,
            focused_pane: self.focused_pane,
            show_search: self.show_search,
            search_input: self.search_input@,
            show_playback_controls: self.show_playback_controls,
            playback_controls_state: self.playback_controls_state,
            show_help: self.show_help,
            state: self.state@,
            should_quit: self.should_quit,
            last_search_time: self.last_search_time,
            search_debounce_ms: self.search_debounce_ms,
        }
    }
}

/// When the periodic work of the loop was last done, in milliseconds on the
/// driver's clock.
#[derive(Debug, Clone, Copy, PartialEq, Eq)]
pub struct Timers {
    pub last_update: u64,
    pub last_refreshed: u64,
}

/// What one iteration of the loop is to do once the screen is drawn.
#[derive(Debug, Clone, PartialEq, Eq)]
pub struct TickPlan {
    /// Leave the loop; nothing else is set.
    pub quit: bool,
    /// Ask the service what is playing and what is queued.
    pub update_playback: bool,
    /// Renew the access token.
    pub refresh_token: bool,
    /// Send this query to the service and hand the result to
    /// [`App::search_finished`].
    pub search: Option<String>,
}

/// Milliseconds from `since` to `now`; zero when `now` lies before `since`.
pub fn elapsed(since: u64, now: u64) -> (ms: u64)
    ensures
        ms == elapsed_ms(since, now),
{
    if now >= since {
        now - since
    } else {
        0
    }
}

impl App {
    /// The session at start: nothing loaded, the playlists focused, no popup,
    /// the first row of every list highlighted, authentication under way.
    pub fn new(client_id: String, client_secret: String) -> (app: App)
        ensures
            app@ == AppView::initial(app.spotify_client),
            app@.wf(),
            app.spotify_client@.client_id == client_id@,
            app.spotify_client@.access_token is None,
            app.spotify_client@.refresh_token is None,
    {
        App {
            spotify_client: SpotifyClient::new(client_id, client_secret),
            playlists: Vec::new(),
            current_tracks: Vec::new(),
            search_results: Vec::new(),
            currently_playing: None,
            queue: None,
            playlists_state: Selection::at(0),
            tracks_state: Selection::at(0),
            search_state: Selection::at(0),
            focused_pane: FocusedPane::Playlists,
            show_search: false,
            search_input: String::new(),
            show_playback_controls: false,
            playback_controls_state: Selection::at(0),
            show_help: false,
            state: AppState::Authenticating,
            should_quit: false,
            last_search_time: None,
            search_debounce_ms: SEARCH_DEBOUNCE_MS,
        }
    }

    /// The tracks that the track pane shows: the search results while the
    /// search bar is shown, the tracks of the playlist otherwise.
    pub fn get_display_tracks(&self) -> (tracks: &Vec<Track>)
        ensures
            tracks@ == self@.display_tracks(),
            *tracks == if self.show_search {
                self.search_results
            } else {
                self.current_tracks
            },
    {
        if self.show_search {
            &self.search_results
        } else {
            &self.current_tracks
        }
    }

    /// The cursor of the list that the track pane shows.
    pub fn get_display_selection(&self) -> (selection: Selection)
        ensures
            selection == self@.display_selection(),
    {
        if self.show_search {
            self.search_state
        } else {
            self.tracks_state
        }
    }

    /// The URI of the highlighted track of the track pane, if a row is
    /// highlighted and lies inside the list.
    pub fn selected_track_uri(&self) -> (uri: Option<String>)
        ensures
            text_of(uri) == self@.selected_uri(),
    {
        let tracks = self.get_display_tracks();
        match self.get_display_selection().index {
            Some(i) => {
                if i < tracks.len() {
                    Some(tracks[i].uri.clone())
                } else {
                    None
                }
            },
            None => None,
        }
    }

    fn play_selected(&self) -> (action: Action)
        ensures
            action@ == self@.play_selected(),
    {
        match self.selected_track_uri() {
            Some(uri) => Action::PlayTrack(uri),
            None => Action::Nothing,
        }
    }

    fn enqueue_selected(&self) -> (action: Action)
        ensures
            action@ == self@.enqueue_selected(),
    {
        match self.selected_track_uri() {
            Some(uri) => Action::AddToQueue(uri),
            None => Action::Nothing,
        }
    }

    fn cycle_focus(&mut self)
        ensures
            final(self)@ == old(self)@.cycle_focus().next,
    {
        self.focused_pane = match self.focused_pane {
            FocusedPane::Playlists => FocusedPane::Tracks,
            FocusedPane::Tracks => if self.show_search {
                FocusedPane::SearchInput
            } else {
                FocusedPane::Playlists
            },
            FocusedPane::SearchInput => FocusedPane::Playlists,
        };
    }

    fn enter_results(&mut self)
        ensures
            final(self)@ == old(self)@.enter_results().next,
    {
        if self.search_results.len() > 0 {
            self.focused_pane = FocusedPane::Tracks;
            self.search_state = Selection::at(0);
        }
    }

    fn move_cursor(selection: &mut Selection, step: Move, len: usize)
        ensures
            *final(selection) == old(selection).moved(step, len as nat),
    {
        match step {
            Move::Up => {
                selection.move_up(len);
            },
            Move::Down => {
                selection.move_down(len);
            },
        }
    }

    fn playlists_navigate(&mut self, step: Move) -> (action: Action)
        ensures
            final(self)@ == old(self)@.playlists_navigate(step).next,
            action@ == old(self)@.playlists_navigate(step).action,
    {
        let before = self.playlists_state.index;
        Self::move_cursor(&mut self.playlists_state, step, self.playlists.len());
        let changed = match (before, self.playlists_state.index) {
            (Some(a), Some(b)) => a != b,
            (None, None) => false,
            _ => true,
        };
        if changed {
            match self.playlists_state.index {
                Some(i) => {
                    if i < self.playlists.len() {
                        Action::LoadPlaylistTracks(self.playlists[i].id.clone())
                    } else {
                        Action::Nothing
                    }
                },
                None => Action::Nothing,
            }
        } else {
            Action::Nothing
        }
    }

    fn browse_navigate(&mut self, step: Move) -> (action: Action)
        requires
            !old(self).show_search,
        ensures
            final(self)@ == old(self)@.browse_navigate(step).next,
            action@ == old(self)@.browse_navigate(step).action,
    {
        match self.focused_pane {
            FocusedPane::Playlists => self.playlists_navigate(step),
            FocusedPane::Tracks => {
                Self::move_cursor(&mut self.tracks_state, step, self.current_tracks.len());
                Action::Nothing
            },
            FocusedPane::SearchInput => Action::Nothing,
        }
    }

    fn search_navigate(&mut self, step: Move)
        ensures
            final(self)@ == old(self)@.search_navigate(step).next,
    {
        match self.focused_pane {
            FocusedPane::Tracks => {
                Self::move_cursor(&mut self.search_state, step, self.search_results.len());
            },
            _ => {},
        }
    }

    fn open_search(&mut self)
        ensures
            final(self)@ == old(self)@.open_search().next,
    {
        self.show_search = true;
        self.search_input.clear();
        self.search_results.clear();
        self.focused_pane = FocusedPane::SearchInput;
        self.last_search_time = None;
    }

    fn close_search(&mut self)
        ensures
            final(self)@ == old(self)@.close_search().next,
    {
        self.show_search = false;
        self.search_input.clear();
        self.search_results.clear();
        self.focused_pane = FocusedPane::Playlists;
        self.last_search_time = None;
    }

    fn type_char(&mut self, c: char, now: u64)
        ensures
            final(self)@ == old(self)@.type_char(c, now).next,
    {
        self.search_input.push(c);
        self.last_search_time = Some(now);
    }

    fn erase_char(&mut self, now: u64)
        ensures
            final(self)@ == old(self)@.erase_char(now).next,
    {
        self.search_input.pop();
        if self.search_input.as_str().is_empty() {
            self.search_results.clear();
            self.last_search_time = None;
        } else {
            self.last_search_time = Some(now);
        }
    }

    fn search_enter(&mut self) -> (action: Action)
        ensures
            final(self)@ == old(self)@.search_enter().next,
            action@ == old(self)@.search_enter().action,
    {
        match self.focused_pane {
            FocusedPane::SearchInput => {
                self.enter_results();
                Action::Nothing
            },
            FocusedPane::Tracks => self.play_selected(),
            FocusedPane::Playlists => {
                if self.search_results.len() > 0 {
                    let action = self.play_selected();
                    self.focused_pane = FocusedPane::Tracks;
                    action
                } else {
                    Action::Nothing
                }
            },
        }
    }

    fn handle_search_key(&mut self, key: KeyEvent, now: u64) -> (action: Action)
        requires
            old(self).show_search,
        ensures
            final(self)@ == old(self)@.on_search_key(key, now).next,
            action@ == old(self)@.on_search_key(key, now).action,
    {
        if key.moves_up() {
            self.search_navigate(Move::Up);
            return Action::Nothing;
        }
        if key.moves_down() {
            self.search_navigate(Move::Down);
            return Action::Nothing;
        }
        match key.code {
            KeyCode::Esc => {
                self.close_search();
                Action::Nothing
            },
            KeyCode::Enter => self.search_enter(),
            KeyCode::Char(c) => {
                if c == '+' {
                    match self.focused_pane {
                        FocusedPane::Tracks => self.enqueue_selected(),
                        _ => Action::Nothing,
                    }
                } else {
                    match self.focused_pane {
                        FocusedPane::SearchInput => {
                            self.type_char(c, now);
                        },
                        _ => {},
                    }
                    Action::Nothing
                }
            },
            KeyCode::Backspace => {
                match self.focused_pane {
                    FocusedPane::SearchInput => {
                        self.erase_char(now);
                    },
                    _ => {},
                }
                Action::Nothing
            },
            KeyCode::Tab => {
                self.cycle_focus();
                Action::Nothing
            },
            _ => Action::Nothing,
        }
    }

    fn browse_enter(&mut self) -> (action: Action)
        ensures
            final(self)@ == old(self)@.browse_enter().next,
            action@ == old(self)@.browse_enter().action,
    {
        match self.focused_pane {
            FocusedPane::Tracks => self.play_selected(),
            FocusedPane::SearchInput => {
                self.enter_results();
                Action::Nothing
            },
            FocusedPane::Playlists => Action::Nothing,
        }
    }

    fn handle_browse_key(&mut self, key: KeyEvent) -> (action: Action)
        requires
            !old(self).show_search,
        ensures
            final(self)@ == old(self)@.on_browse_key(key).next,
            action@ == old(self)@.on_browse_key(key).action,
    {
        if key.moves_up() {
            return self.browse_navigate(Move::Up);
        }
        if key.moves_down() {
            return self.browse_navigate(Move::Down);
        }
        match key.code {
            KeyCode::Char(c) => {
                if c == 'q' {
                    self.should_quit = true;
                    Action::Nothing
                } else if c == 's' {
                    self.open_search();
                    Action::Nothing
                } else if c == ' ' {
                    self.show_playback_controls = true;
                    self.playback_controls_state = Selection::at(0);
                    Action::Nothing
                } else if c == '?' {
                    self.show_help = true;
                    Action::Nothing
                } else if c == '+' {
                    match self.focused_pane {
                        FocusedPane::Tracks => self.enqueue_selected(),
                        _ => Action::Nothing,
                    }
                } else {
                    Action::Nothing
                }
            },
            KeyCode::Tab => {
                self.cycle_focus();
                Action::Nothing
            },
            KeyCode::Enter => self.browse_enter(),
            _ => Action::Nothing,
        }
    }

    /// A key press while the playback menu is shown: Esc closes the menu, up
    /// and down move its cursor, Enter invokes the highlighted entry (play or
    /// pause by what was last known to be playing, previous, next, close).
    /// No other key acts.
    pub fn handle_playback_controls_key(&mut self, key: KeyEvent) -> (action: Action)
        ensures
            final(self)@ == old(self)@.on_playback_controls_key(key).next,
            action@ == old(self)@.on_playback_controls_key(key).action,
    {
        if key.moves_up() {
            self.playback_controls_state.move_up(PLAYBACK_MENU_LEN);
            return Action::Nothing;
        }
        if key.moves_down() {
            self.playback_controls_state.move_down(PLAYBACK_MENU_LEN);
            return Action::Nothing;
        }
        match key.code {
            KeyCode::Esc => {
                self.show_playback_controls = false;
                Action::Nothing
            },
            KeyCode::Enter => {
                match self.playback_controls_state.index {
                    Some(i) => {
                        if i == 0 {
                            let playing = match &self.currently_playing {
                                Some(current) => current.is_playing,
                                None => false,
                            };
                            if playing {
                                Action::PausePlayback
                            } else {
                                Action::ResumePlayback
                            }
                        } else if i == 1 {
                            Action::PreviousTrack
                        } else if i == 2 {
                            Action::NextTrack
                        } else if i == 3 {
                            self.show_playback_controls = false;
                            Action::Nothing
                        } else {
                            Action::Nothing
                        }
                    },
                    None => Action::Nothing,
                }
            },
            _ => Action::Nothing,
        }
    }

    /// The request to queue the highlighted track of the track pane, if a row
    /// is highlighted and lies inside the list. The result of the request
    /// goes to [`App::queue_add_finished`].
    pub fn add_current_track_to_queue(&self) -> (action: Action)
        ensures
            action@ == self@.enqueue_selected(),
    {
        self.enqueue_selected()
    }

    /// A key press at time `now`. An error popup takes the key and closes,
    /// and the key does nothing else. Else the help popup takes it, else the
    /// playback menu, else the search bar; what is left goes to the panes.
    pub fn handle_key_event(&mut self, key: KeyEvent, now: u64) -> (action: Action)
        ensures
            final(self)@ == old(self)@.on_key(key, now).next,
            action@ == old(self)@.on_key(key, now).action,
            old(self)@.wf() ==> final(self)@.wf(),
    {
        proof {
            if old(self)@.wf() {
                lemma_key_keeps_wf(old(self)@, key, now);
            }
        }
        if let AppState::Error(_) = &self.state {
            self.state = AppState::Ready;
            return Action::Nothing;
        }
        if self.show_help {
            match key.code {
                KeyCode::Esc => {
                    self.show_help = false;
                },
                KeyCode::Char(c) => {
                    if c == '?' {
                        self.show_help = false;
                    }
                },
                _ => {},
            }
            Action::Nothing
        } else if self.show_playback_controls {
            self.handle_playback_controls_key(key)
        } else if self.show_search {
            self.handle_search_key(key, now)
        } else {
            self.handle_browse_key(key)
        }
    }

    /// Authentication starts.
    pub fn begin_authentication(&mut self)
        ensures
            final(self)@ == (AppView { state: Phase::Authenticating, ..old(self)@ }),
    {
        self.state = AppState::Authenticating;
    }

    /// Authentication ended: the session is ready, or shows why it failed.
    pub fn authentication_finished(&mut self, result: Result<(), ApiError>)
        ensures
            final(self)@ == match result {
                Ok(_) => AppView { state: Phase::Ready, ..old(self)@ },
                Err(e) => old(self)@.failed("Authentication failed: "@ + e.message_text()),
            },
    {
        match result {
            Ok(_) => {
                self.state = AppState::Ready;
            },
            Err(e) => {
                let detail = e.message();
                self.state = AppState::Error(joined("Authentication failed: ", detail.as_str()));
            },
        }
    }

    /// A renewal of the access token ended: the session is ready, or shows
    /// why the renewal failed.
    pub fn token_refresh_finished(&mut self, result: Result<(), ApiError>)
        ensures
            final(self)@ == match result {
                Ok(_) => AppView { state: Phase::Ready, ..old(self)@ },
                Err(e) => old(self)@.failed("Authentication failed: "@ + e.message_text()),
            },
    {
        self.authentication_finished(result)
    }

    /// The playlists are about to be fetched. A session that is ready starts
    /// loading; any other stays as it is, and nothing is to be fetched.
    pub fn begin_loading(&mut self) -> (started: bool)
        ensures
            final(self)@ == old(self)@.loading(),
            started == (old(self)@.state is Ready),
    {
        if let AppState::Ready = &self.state {
            self.state = AppState::Loading;
            true
        } else {
            false
        }
    }

    /// The playlists arrived, or failed to. With playlists, the first one is
    /// highlighted and its tracks are asked for; without any, loading is
    /// over. A failure is shown.
    pub fn playlists_loaded(&mut self, result: Result<Vec<Playlist>, ApiError>) -> (action: Action)
        ensures
            final(self)@ == match result {
                Ok(playlists) => old(self)@.with_playlists(playlists@).next,
                Err(e) => old(self)@.failed("Failed to load playlists: "@ + e.message_text()),
            },
            action@ == match result {
                Ok(playlists) => old(self)@.with_playlists(playlists@).action,
                Err(e) => ActionView::Nothing,
            },
    {
        match result {
            Ok(playlists) => {
                self.playlists = playlists;
                self.playlists_state = Selection::at(0);
                if self.playlists.len() > 0 {
                    Action::LoadPlaylistTracks(self.playlists[0].id.clone())
                } else {
                    self.state = AppState::Ready;
                    Action::Nothing
                }
            },
            Err(e) => {
                let detail = e.message();
                self.state = AppState::Error(
                    joined("Failed to load playlists: ", detail.as_str()),
                );
                Action::Nothing
            },
        }
    }

    /// The tracks of a playlist arrived, or failed to. Tracks are shown with
    /// the first one highlighted, and end the loading phase; a failure is
    /// shown.
    pub fn playlist_tracks_loaded(&mut self, result: Result<Vec<Track>, ApiError>)
        ensures
            final(self)@ == match result {
                Ok(tracks) => old(self)@.with_tracks(tracks@),
                Err(e) => old(self)@.failed(e.message_text()),
            },
    {
        match result {
            Ok(tracks) => {
                self.current_tracks = tracks;
                self.tracks_state = Selection::at(0);
                if let AppState::Loading = &self.state {
                    self.state = AppState::Ready;
                }
            },
            Err(e) => {
                self.state = AppState::Error(e.message());
            },
        }
    }

    /// The periodic look at the player came back. What it saw replaces what
    /// was known; a failure is ignored.
    pub fn update_currently_playing(&mut self, result: Result<Option<CurrentlyPlaying>, ApiError>)
        ensures
            final(self)@ == match result {
                Ok(playing) => AppView { currently_playing: playing, ..old(self)@ },
                Err(_) => old(self)@,
            },
    {
        match result {
            Ok(playing) => {
                self.currently_playing = playing;
            },
            Err(_) => {},
        }
    }

    /// The look at the play queue came back. What it saw replaces what was
    /// known; a failure is ignored.
    pub fn update_queue(&mut self, result: Result<Option<Queue>, ApiError>)
        ensures
            final(self)@ == match result {
                Ok(queue) => AppView { queue, ..old(self)@ },
                Err(_) => old(self)@,
            },
    {
        match result {
            Ok(queue) => {
                self.queue = queue;
            },
            Err(_) => {},
        }
    }

    /// Looks at the pending search at time `now`. A search that has waited
    /// out the quiet interval is no longer pending afterwards, and its query,
    /// unless empty, is returned to be sent.
    pub fn check_pending_search(&mut self, now: u64) -> (query: Option<String>)
        ensures
            final(self)@ == old(self)@.after_search_check(now),
            text_of(query) == old(self)@.search_to_send(now),
    {
        match self.last_search_time {
            Some(since) => {
                if elapsed(since, now) >= self.search_debounce_ms {
                    self.last_search_time = None;
                    if !self.search_input.as_str().is_empty() {
                        Some(self.search_input.clone())
                    } else {
                        None
                    }
                } else {
                    None
                }
            },
            None => None,
        }
    }

    /// A search came back. Results replace the old ones, with nothing
    /// highlighted, unless the search box has been emptied in the meantime;
    /// a failure is shown.
    pub fn search_finished(&mut self, result: Result<Vec<Track>, ApiError>)
        ensures
            final(self)@ == match result {
                Ok(tracks) => old(self)@.with_search_results(tracks@),
                Err(e) => old(self)@.failed(e.message_text()),
            },
    {
        match result {
            Ok(tracks) => {
                if !self.search_input.as_str().is_empty() {
                    self.search_results = tracks;
                    self.search_state = Selection::new();
                }
            },
            Err(e) => {
                self.state = AppState::Error(e.message());
            },
        }
    }

    /// A command to the player (play, pause, resume, next, previous) came
    /// back. Success changes nothing; a failure is shown.
    pub fn command_finished(&mut self, result: Result<(), ApiError>)
        ensures
            final(self)@ == match result {
                Ok(_) => old(self)@,
                Err(e) => old(self)@.failed(e.message_text()),
            },
    {
        match result {
            Ok(_) => {},
            Err(e) => {
                self.state = AppState::Error(e.message());
            },
        }
    }

    /// The request to queue a track came back. After success the queue is to
    /// be fetched again at once, which the result says; a failure is shown.
    pub fn queue_add_finished(&mut self, result: Result<(), ApiError>) -> (fetch_queue: bool)
        ensures
            fetch_queue == (result is Ok),
            final(self)@ == match result {
                Ok(_) => old(self)@,
                Err(e) => old(self)@.failed(e.message_text()),
            },
    {
        match result {
            Ok(_) => true,
            Err(e) => {
                self.state = AppState::Error(e.message());
                false
            },
        }
    }

    /// Plans one iteration of the loop at time `now`, after the screen was
    /// drawn. A session that was asked to quit leaves the loop and nothing
    /// else happens. Otherwise each timer is checked, whether or not a key
    /// was read in the last iteration: the player is looked at when
    /// [`PLAYBACK_POLL_MS`] have passed since the last look, the token is
    /// renewed when [`TOKEN_REFRESH_MS`] have passed since the last renewal,
    /// and the pending search is sent when it is due. A timer that fires
    /// starts again from `now`. After the plan is carried out, the driver
    /// waits [`INPUT_WAIT_MS`] for one key.
    pub fn run(&mut self, timers: &mut Timers, now: u64) -> (plan: TickPlan)
        ensures
            plan.quit == old(self).should_quit,
            plan.quit ==> {
                &&& *final(self) == *old(self)
                &&& *final(timers) == *old(timers)
                &&& !plan.update_playback
                &&& !plan.refresh_token
                &&& plan.search is None
            },
            !plan.quit ==> {
                &&& plan.update_playback == (elapsed_ms(old(timers).last_update, now)
                    >= PLAYBACK_POLL_MS)
                &&& plan.refresh_token == (elapsed_ms(old(timers).last_refreshed, now)
                    >= TOKEN_REFRESH_MS)
                &&& final(timers).last_update == if plan.update_playback {
                    now
                } else {
                    old(timers).last_update
                }
                &&& final(timers).last_refreshed == if plan.refresh_token {
                    now
                } else {
                    old(timers).last_refreshed
                }
                &&& text_of(plan.search) == old(self)@.search_to_send(now)
                &&& final(self)@ == old(self)@.after_search_check(now)
            },
    {
        if self.should_quit {
            return TickPlan { quit: true, update_playback: false, refresh_token: false, search: None };
        }
        let update_playback = elapsed(timers.last_update, now) >= PLAYBACK_POLL_MS;
        if update_playback {
            timers.last_update = now;
        }
        let refresh_token = elapsed(timers.last_refreshed, now) >= TOKEN_REFRESH_MS;
        if refresh_token {
            timers.last_refreshed = now;
        }
        let search = self.check_pending_search(now);
        TickPlan { quit: false, update_playback, refresh_token, search }
    }
}

} // verus!
