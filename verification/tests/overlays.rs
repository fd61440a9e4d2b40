use spotitui::app::{Action, App, AppState, FocusedPane};
use spotitui::error::{ApiError, Operation};
use spotitui::keys::{KeyCode, KeyEvent};
use spotitui::selection::Selection;
use spotitui::spotify::{Album, CurrentlyPlaying, Playlist, PlaylistTracks, Track};

fn song(id: &str) -> Track {
    Track {
        id: id.to_string(),
        name: id.to_string(),
        artists: vec![],
        album: Album { id: String::new(), name: String::new(), images: vec![] },
        duration_ms: 1000,
        uri: format!("spotify:track:{}", id),
    }
}

fn session() -> App {
    let mut app = App::new("client".to_string(), "secret".to_string());
    app.state = AppState::Ready;
    app
}

fn key(app: &mut App, code: KeyCode) -> Action {
    app.handle_key_event(KeyEvent::plain(code), 0)
}

#[test]
fn new_session_starts_authenticating_with_first_rows_highlighted() {
    let app = App::new("client".to_string(), "secret".to_string());
    assert_eq!(app.state, AppState::Authenticating);
    assert_eq!(app.focused_pane, FocusedPane::Playlists);
    assert!(app.playlists.is_empty() && app.current_tracks.is_empty() && app.search_results.is_empty());
    assert_eq!(app.playlists_state.selected(), Some(0));
    assert_eq!(app.tracks_state.selected(), Some(0));
    assert_eq!(app.search_state.selected(), Some(0));
    assert_eq!(app.playback_controls_state.selected(), Some(0));
    assert!(!app.show_search && !app.show_help && !app.show_playback_controls && !app.should_quit);
    assert_eq!(app.search_input, "");
    assert_eq!(app.last_search_time, None);
    assert_eq!(app.search_debounce_ms, 500);
    assert!(!app.spotify_client.is_authenticated());
}

#[test]
fn any_key_dismisses_an_error_and_does_nothing_else() {
    for code in [KeyCode::Char('q'), KeyCode::Char('s'), KeyCode::Down, KeyCode::Enter, KeyCode::Tab, KeyCode::Other] {
        let mut app = session();
        app.playlists = vec![
            Playlist { id: "A".into(), name: "A".into(), description: None, tracks: PlaylistTracks { total: 1 } },
            Playlist { id: "B".into(), name: "B".into(), description: None, tracks: PlaylistTracks { total: 1 } },
        ];
        app.current_tracks = vec![song("1")];
        app.focused_pane = FocusedPane::Tracks;
        app.command_finished(Err(ApiError::RemoteCallFailed { operation: Operation::PlayTrack, status: 500 }));
        assert_eq!(app.state, AppState::Error("Failed to play track: 500".to_string()));
        let action = key(&mut app, code);
        assert_eq!(action, Action::Nothing);
        assert_eq!(app.state, AppState::Ready);
        assert_eq!(app.focused_pane, FocusedPane::Tracks);
        assert_eq!(app.playlists_state.selected(), Some(0));
        assert_eq!(app.tracks_state.selected(), Some(0));
        assert!(!app.should_quit && !app.show_search && !app.show_help);
        assert_eq!(app.current_tracks.len(), 1);
    }
}

#[test]
fn error_dismissal_swallows_exactly_one_key() {
    let mut app = session();
    app.command_finished(Err(ApiError::NoDevices));
    key(&mut app, KeyCode::Char('q'));
    assert!(!app.should_quit);
    key(&mut app, KeyCode::Char('q'));
    assert!(app.should_quit);
}

#[test]
fn help_popup_takes_every_key() {
    let mut app = session();
    key(&mut app, KeyCode::Char('?'));
    assert!(app.show_help);
    key(&mut app, KeyCode::Char('q'));
    key(&mut app, KeyCode::Tab);
    key(&mut app, KeyCode::Char('s'));
    assert!(app.show_help && !app.should_quit && !app.show_search);
    assert_eq!(app.focused_pane, FocusedPane::Playlists);
    key(&mut app, KeyCode::Esc);
    assert!(!app.show_help);
    key(&mut app, KeyCode::Char('?'));
    assert!(app.show_help);
    key(&mut app, KeyCode::Char('?'));
    assert!(!app.show_help);
}

#[test]
fn playback_menu_cursor_stays_between_zero_and_three() {
    let mut app = session();
    key(&mut app, KeyCode::Char(' '));
    assert!(app.show_playback_controls);
    assert_eq!(app.playback_controls_state.selected(), Some(0));
    key(&mut app, KeyCode::Up);
    assert_eq!(app.playback_controls_state.selected(), Some(0));
    for want in [1, 2, 3, 3, 3] {
        key(&mut app, KeyCode::Down);
        assert_eq!(app.playback_controls_state.selected(), Some(want));
    }
    app.handle_key_event(KeyEvent::control('p'), 0);
    assert_eq!(app.playback_controls_state.selected(), Some(2));
    app.handle_key_event(KeyEvent::control('n'), 0);
    assert_eq!(app.playback_controls_state.selected(), Some(3));
    key(&mut app, KeyCode::Char('q'));
    assert!(!app.should_quit && app.show_playback_controls);
}

#[test]
fn playback_menu_reopens_on_its_first_entry() {
    let mut app = session();
    key(&mut app, KeyCode::Char(' '));
    key(&mut app, KeyCode::Down);
    key(&mut app, KeyCode::Esc);
    assert!(!app.show_playback_controls);
    key(&mut app, KeyCode::Char(' '));
    assert_eq!(app.playback_controls_state.selected(), Some(0));
}

#[test]
fn playback_menu_entries_invoke_their_commands() {
    let mut app = session();
    app.show_playback_controls = true;
    app.playback_controls_state = Selection::at(0);
    assert_eq!(app.handle_playback_controls_key(KeyEvent::plain(KeyCode::Enter)), Action::ResumePlayback);
    app.currently_playing = Some(CurrentlyPlaying { item: None, is_playing: true, progress_ms: None, device: None });
    assert_eq!(key(&mut app, KeyCode::Enter), Action::PausePlayback);
    app.currently_playing = Some(CurrentlyPlaying { item: None, is_playing: false, progress_ms: None, device: None });
    assert_eq!(key(&mut app, KeyCode::Enter), Action::ResumePlayback);
    app.playback_controls_state = Selection::at(1);
    assert_eq!(key(&mut app, KeyCode::Enter), Action::PreviousTrack);
    app.playback_controls_state = Selection::at(2);
    assert_eq!(key(&mut app, KeyCode::Enter), Action::NextTrack);
    assert!(app.show_playback_controls);
    app.playback_controls_state = Selection::at(3);
    assert_eq!(key(&mut app, KeyCode::Enter), Action::Nothing);
    assert!(!app.show_playback_controls);
}

#[test]
fn failures_of_user_actions_show_an_error() {
    let mut app = session();
    app.command_finished(Ok(()));
    assert_eq!(app.state, AppState::Ready);
    app.command_finished(Err(ApiError::RemoteCallFailed { operation: Operation::PausePlayback, status: 403 }));
    assert_eq!(app.state, AppState::Error("Spotify Premium is required for playback control.".to_string()));
    let mut other = session();
    assert!(other.queue_add_finished(Ok(())));
    assert_eq!(other.state, AppState::Ready);
    assert!(!other.queue_add_finished(Err(ApiError::RemoteCallFailed { operation: Operation::AddToQueue, status: 404 })));
    assert_eq!(
        other.state,
        AppState::Error("No active device found. Please start Spotify on your phone, computer, or web browser.".to_string())
    );
}

#[test]
fn polling_failures_are_ignored() {
    let mut app = session();
    app.update_currently_playing(Ok(Some(CurrentlyPlaying { item: None, is_playing: true, progress_ms: Some(5), device: None })));
    assert!(app.currently_playing.is_some());
    app.update_currently_playing(Err(ApiError::Network("down".to_string())));
    assert!(app.currently_playing.is_some());
    assert_eq!(app.state, AppState::Ready);
    app.update_currently_playing(Ok(None));
    assert!(app.currently_playing.is_none());
    app.update_queue(Err(ApiError::NotAuthenticated));
    assert!(app.queue.is_none());
    assert_eq!(app.state, AppState::Ready);
    app.update_queue(Ok(Some(spotitui::spotify::Queue { currently_playing: None, queue: vec![song("1")] })));
    assert_eq!(app.queue.as_ref().map(|q| q.queue.len()), Some(1));
}

#[test]
fn startup_goes_from_authenticating_over_loading_to_ready() {
    let mut app = App::new("client".to_string(), "secret".to_string());
    app.begin_authentication();
    assert_eq!(app.state, AppState::Authenticating);
    assert!(!app.begin_loading());
    app.authentication_finished(Ok(()));
    assert_eq!(app.state, AppState::Ready);
    assert!(app.begin_loading());
    assert_eq!(app.state, AppState::Loading);
    let lists = vec![
        Playlist { id: "liked".into(), name: "Liked Songs".into(), description: None, tracks: PlaylistTracks { total: 50 } },
        Playlist { id: "X".into(), name: "X".into(), description: None, tracks: PlaylistTracks { total: 2 } },
    ];
    assert_eq!(app.playlists_loaded(Ok(lists)), Action::LoadPlaylistTracks("liked".to_string()));
    assert_eq!(app.state, AppState::Loading);
    assert_eq!(app.playlists.len(), 2);
    app.playlist_tracks_loaded(Ok(vec![song("1"), song("2")]));
    assert_eq!(app.state, AppState::Ready);
    assert_eq!(app.current_tracks.len(), 2);
    assert_eq!(app.tracks_state.selected(), Some(0));
}

#[test]
fn startup_failures_are_shown() {
    let mut app = App::new("client".to_string(), "secret".to_string());
    app.authentication_finished(Err(ApiError::AuthTimeout));
    assert_eq!(
        app.state,
        AppState::Error("Authentication failed: Authentication timed out - manual entry required".to_string())
    );
    assert!(!app.begin_loading());
    let mut other = App::new("client".to_string(), "secret".to_string());
    other.authentication_finished(Ok(()));
    other.begin_loading();
    assert_eq!(other.playlists_loaded(Err(ApiError::MalformedResponse)), Action::Nothing);
    assert_eq!(
        other.state,
        AppState::Error("Failed to load playlists: Unexpected response from the music service".to_string())
    );
    let mut third = App::new("client".to_string(), "secret".to_string());
    third.authentication_finished(Ok(()));
    third.begin_loading();
    assert_eq!(third.playlists_loaded(Ok(vec![])), Action::Nothing);
    assert_eq!(third.state, AppState::Ready);
    third.playlist_tracks_loaded(Err(ApiError::NotAuthenticated));
    assert_eq!(third.state, AppState::Error("Not authenticated".to_string()));
}

#[test]
fn token_refresh_outcome_sets_the_phase() {
    let mut app = session();
    app.token_refresh_finished(Err(ApiError::AuthExchangeFailed { status: 400 }));
    assert_eq!(
        app.state,
        AppState::Error("Authentication failed: Token exchange failed with status 400".to_string())
    );
    app.token_refresh_finished(Ok(()));
    assert_eq!(app.state, AppState::Ready);
}

#[test]
fn reloading_tracks_while_ready_keeps_the_phase() {
    let mut app = session();
    app.tracks_state = Selection::at(4);
    app.playlist_tracks_loaded(Ok(vec![song("9")]));
    assert_eq!(app.state, AppState::Ready);
    assert_eq!(app.tracks_state.selected(), Some(0));
    assert_eq!(app.current_tracks[0].id, "9");
}
