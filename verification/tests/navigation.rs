use spotitui::app::{Action, App, AppState, FocusedPane};
use spotitui::keys::{KeyCode, KeyEvent};
use spotitui::selection::Selection;
use spotitui::spotify::{Album, Artist, Playlist, PlaylistTracks, Track};

fn track(id: &str) -> Track {
    Track {
        id: id.to_string(),
        name: format!("Song {}", id),
        artists: vec![Artist { id: "a1".to_string(), name: "Artist".to_string() }],
        album: Album { id: "al".to_string(), name: "Album".to_string(), images: vec![] },
        duration_ms: 180000,
        uri: format!("spotify:track:{}", id),
    }
}

fn playlist(id: &str) -> Playlist {
    Playlist {
        id: id.to_string(),
        name: format!("List {}", id),
        description: None,
        tracks: PlaylistTracks { total: 3 },
    }
}

fn ready_app() -> App {
    let mut app = App::new("client".to_string(), "secret".to_string());
    app.state = AppState::Ready;
    app
}

fn press(app: &mut App, code: KeyCode) -> Action {
    app.handle_key_event(KeyEvent::plain(code), 0)
}

#[test]
fn down_twice_over_three_playlists_loads_second_then_third() {
    let mut app = ready_app();
    app.playlists = vec![playlist("A"), playlist("B"), playlist("C")];
    app.playlists_state = Selection::at(0);
    let first = press(&mut app, KeyCode::Down);
    assert_eq!(first, Action::LoadPlaylistTracks("B".to_string()));
    assert_eq!(app.playlists_state.selected(), Some(1));
    let second = press(&mut app, KeyCode::Down);
    assert_eq!(second, Action::LoadPlaylistTracks("C".to_string()));
    assert_eq!(app.playlists_state.selected(), Some(2));
}

#[test]
fn down_at_last_playlist_is_a_no_op() {
    let mut app = ready_app();
    app.playlists = vec![playlist("A"), playlist("B")];
    app.playlists_state = Selection::at(1);
    assert_eq!(press(&mut app, KeyCode::Down), Action::Nothing);
    assert_eq!(app.playlists_state.selected(), Some(1));
}

#[test]
fn up_at_first_playlist_is_a_no_op() {
    let mut app = ready_app();
    app.playlists = vec![playlist("A"), playlist("B")];
    app.playlists_state = Selection::at(0);
    assert_eq!(press(&mut app, KeyCode::Up), Action::Nothing);
    assert_eq!(app.playlists_state.selected(), Some(0));
}

#[test]
fn up_in_playlists_loads_the_playlist_above() {
    let mut app = ready_app();
    app.playlists = vec![playlist("A"), playlist("B"), playlist("C")];
    app.playlists_state = Selection::at(2);
    assert_eq!(press(&mut app, KeyCode::Up), Action::LoadPlaylistTracks("B".to_string()));
    assert_eq!(app.playlists_state.selected(), Some(1));
}

#[test]
fn control_chords_navigate_like_arrows() {
    let mut app = ready_app();
    app.playlists = vec![playlist("A"), playlist("B"), playlist("C")];
    let down = app.handle_key_event(KeyEvent::control('n'), 0);
    assert_eq!(down, Action::LoadPlaylistTracks("B".to_string()));
    let up = app.handle_key_event(KeyEvent::control('p'), 0);
    assert_eq!(up, Action::LoadPlaylistTracks("A".to_string()));
    assert_eq!(app.playlists_state.selected(), Some(0));
}

#[test]
fn navigation_in_empty_lists_changes_nothing() {
    let mut app = ready_app();
    for code in [KeyCode::Down, KeyCode::Up, KeyCode::Down, KeyCode::Down] {
        assert_eq!(press(&mut app, code), Action::Nothing);
        assert_eq!(app.playlists_state.selected(), Some(0));
    }
    app.focused_pane = FocusedPane::Tracks;
    for code in [KeyCode::Down, KeyCode::Up, KeyCode::Down] {
        assert_eq!(press(&mut app, code), Action::Nothing);
        assert_eq!(app.tracks_state.selected(), Some(0));
    }
}

#[test]
fn track_cursor_stays_inside_the_list() {
    let mut app = ready_app();
    app.current_tracks = vec![track("1"), track("2"), track("3")];
    app.focused_pane = FocusedPane::Tracks;
    let steps = [
        KeyCode::Up,
        KeyCode::Down,
        KeyCode::Down,
        KeyCode::Down,
        KeyCode::Down,
        KeyCode::Up,
        KeyCode::Up,
        KeyCode::Up,
        KeyCode::Up,
    ];
    let expected = [0, 1, 2, 2, 2, 1, 0, 0, 0];
    for (code, want) in steps.iter().zip(expected.iter()) {
        assert_eq!(press(&mut app, *code), Action::Nothing);
        assert_eq!(app.tracks_state.selected(), Some(*want));
    }
}

#[test]
fn down_from_no_selection_starts_from_the_first_row() {
    let mut cursor = Selection::new();
    assert!(cursor.move_down(3));
    assert_eq!(cursor.selected(), Some(1));
    let mut other = Selection::new();
    assert!(!other.move_up(3));
    assert_eq!(other.selected(), None);
    let mut single = Selection::new();
    assert!(!single.move_down(1));
    assert_eq!(single.selected(), None);
}

#[test]
fn selection_moves_report_whether_they_moved() {
    let mut cursor = Selection::at(0);
    assert!(!cursor.move_up(2));
    assert!(cursor.move_down(2));
    assert!(!cursor.move_down(2));
    assert!(cursor.move_up(2));
    assert!(!cursor.move_down(0));
    assert!(!cursor.move_up(0));
    cursor.select(None);
    assert_eq!(cursor.selected(), None);
}

#[test]
fn tab_cycles_between_playlists_and_tracks() {
    let mut app = ready_app();
    assert_eq!(app.focused_pane, FocusedPane::Playlists);
    press(&mut app, KeyCode::Tab);
    assert_eq!(app.focused_pane, FocusedPane::Tracks);
    press(&mut app, KeyCode::Tab);
    assert_eq!(app.focused_pane, FocusedPane::Playlists);
}

#[test]
fn tab_reaches_the_search_box_only_while_the_search_bar_is_shown() {
    let mut app = ready_app();
    press(&mut app, KeyCode::Char('s'));
    assert!(app.show_search);
    assert_eq!(app.focused_pane, FocusedPane::SearchInput);
    press(&mut app, KeyCode::Tab);
    assert_eq!(app.focused_pane, FocusedPane::Playlists);
    press(&mut app, KeyCode::Tab);
    assert_eq!(app.focused_pane, FocusedPane::Tracks);
    press(&mut app, KeyCode::Tab);
    assert_eq!(app.focused_pane, FocusedPane::SearchInput);
    press(&mut app, KeyCode::Esc);
    assert!(!app.show_search);
    assert_eq!(app.focused_pane, FocusedPane::Playlists);
}

#[test]
fn enter_on_a_track_plays_it() {
    let mut app = ready_app();
    app.current_tracks = vec![track("1"), track("2")];
    app.tracks_state = Selection::at(1);
    app.focused_pane = FocusedPane::Tracks;
    assert_eq!(press(&mut app, KeyCode::Enter), Action::PlayTrack("spotify:track:2".to_string()));
    assert_eq!(app.state, AppState::Ready);
    assert_eq!(app.tracks_state.selected(), Some(1));
}

#[test]
fn enter_without_a_track_in_reach_plays_nothing() {
    let mut app = ready_app();
    app.focused_pane = FocusedPane::Tracks;
    assert_eq!(press(&mut app, KeyCode::Enter), Action::Nothing);
    app.current_tracks = vec![track("1")];
    app.tracks_state = Selection::at(5);
    assert_eq!(press(&mut app, KeyCode::Enter), Action::Nothing);
    app.tracks_state = Selection::new();
    assert_eq!(press(&mut app, KeyCode::Enter), Action::Nothing);
    app.focused_pane = FocusedPane::Playlists;
    app.tracks_state = Selection::at(0);
    assert_eq!(press(&mut app, KeyCode::Enter), Action::Nothing);
}

#[test]
fn plus_queues_the_highlighted_track() {
    let mut app = ready_app();
    app.current_tracks = vec![track("1"), track("2")];
    app.tracks_state = Selection::at(0);
    assert_eq!(press(&mut app, KeyCode::Char('+')), Action::Nothing);
    app.focused_pane = FocusedPane::Tracks;
    assert_eq!(press(&mut app, KeyCode::Char('+')), Action::AddToQueue("spotify:track:1".to_string()));
    assert_eq!(app.add_current_track_to_queue(), Action::AddToQueue("spotify:track:1".to_string()));
}

#[test]
fn q_asks_to_quit() {
    let mut app = ready_app();
    assert!(!app.should_quit);
    press(&mut app, KeyCode::Char('q'));
    assert!(app.should_quit);
}

#[test]
fn display_tracks_follow_the_search_bar() {
    let mut app = ready_app();
    app.current_tracks = vec![track("1")];
    app.search_results = vec![track("7"), track("8")];
    assert_eq!(app.get_display_tracks().len(), 1);
    assert_eq!(app.get_display_tracks()[0].id, "1");
    app.show_search = true;
    assert_eq!(app.get_display_tracks().len(), 2);
    assert_eq!(app.get_display_tracks()[1].id, "8");
    app.search_state = Selection::at(1);
    assert_eq!(app.get_display_selection().selected(), Some(1));
    assert_eq!(app.selected_track_uri(), Some("spotify:track:8".to_string()));
}
