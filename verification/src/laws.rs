//! What holds of the session however it is driven: stated over the events
//! that reach it, and proved for every sequence of them.

use vstd::prelude::*;
use crate::app::FocusedPane;
use crate::keys::{KeyCode, KeyEvent};
use crate::session::{elapsed_ms, ActionView, AppView, Phase, Step};
use crate::spotify::{CurrentlyPlaying, Playlist, Queue, SpotifyClient, Track};

verus! {

/// Anything that can happen to a session.
pub enum Event {
    /// A key was pressed at time `now`.
    Key { key: KeyEvent, now: u64 },
    /// The loop looked at the pending search at time `now`.
    SearchCheck { now: u64 },
    /// A search came back with results.
    SearchResults(Seq<Track>),
    /// The playlists arrived.
    PlaylistsLoaded(Seq<Playlist>),
    /// The tracks of a playlist arrived.
    TracksLoaded(Seq<Track>),
    /// A look at the player came back.
    NowPlaying(Option<CurrentlyPlaying>),
    /// A look at the queue came back.
    QueueFetched(Option<Queue>),
    /// A remote operation failed and the failure is shown with this text.
    Failed(Seq<char>),
    /// Authentication started.
    AuthenticationBegun,
    /// Authentication or a renewal of the token succeeded.
    Authenticated,
    /// Loading of the playlists started.
    LoadingBegun,
}

/// The state after one event.
pub open spec fn apply(s: AppView, e: Event) -> AppView {
    match e {
        Event::Key { key, now } => s.on_key(key, now).next,
        Event::SearchCheck { now } => s.after_search_check(now),
        Event::SearchResults(tracks) => s.with_search_results(tracks),
        Event::PlaylistsLoaded(playlists) => s.with_playlists(playlists).next,
        Event::TracksLoaded(tracks) => s.with_tracks(tracks),
        Event::NowPlaying(playing) => AppView { currently_playing: playing, ..s },
        Event::QueueFetched(queue) => AppView { queue, ..s },
        Event::Failed(message) => s.failed(message),
        Event::AuthenticationBegun => AppView { state: Phase::Authenticating, ..s },
        Event::Authenticated => AppView { state: Phase::Ready, ..s },
        Event::LoadingBegun => s.loading(),
    }
}

/// The search that one event sends, if it sends one.
pub open spec fn search_sent(s: AppView, e: Event) -> Option<Seq<char>> {
    match e {
        Event::SearchCheck { now } => s.search_to_send(now),
        _ => None,
    }
}

/// The state after a sequence of events, taken left to right.
pub open spec fn after_events(s: AppView, events: Seq<Event>) -> AppView
    decreases events.len(),
{
    if events.len() == 0 {
        s
    } else {
        apply(after_events(s, events.drop_last()), events.last())
    }
}

/// The searches that a sequence of events sends, in order.
pub open spec fn searches_sent(s: AppView, events: Seq<Event>) -> Seq<Seq<char>>
    decreases events.len(),
{
    if events.len() == 0 {
        Seq::empty()
    } else {
        let before = searches_sent(s, events.drop_last());
        match search_sent(after_events(s, events.drop_last()), events.last()) {
            Some(query) => before.push(query),
            None => before,
        }
    }
}

/// No event of the sequence is a key press.
pub open spec fn quiet(events: Seq<Event>) -> bool {
    forall|i: int| 0 <= i < events.len() ==> !(#[trigger] events[i] is Key)
}

/// Some event of the sequence looks at the pending search when `since` lies
/// at least `interval` milliseconds back.
pub open spec fn checked_after(events: Seq<Event>, since: u64, interval: u64) -> bool {
    exists|i: int|
        0 <= i < events.len() && (#[trigger] events[i] matches Event::SearchCheck { now }
            && elapsed_ms(since, now) >= interval)
}

/// A session that was just created is well formed.
pub proof fn lemma_initial_wf(client: SpotifyClient)
    ensures
        AppView::initial(client).wf(),
{
}

/// A key press keeps a well-formed session well formed.
pub proof fn lemma_key_keeps_wf(s: AppView, key: KeyEvent, now: u64)
    requires
        s.wf(),
    ensures
        s.on_key(key, now).next.wf(),
{
}

/// Every event keeps a well-formed session well formed.
pub proof fn lemma_event_keeps_wf(s: AppView, e: Event)
    requires
        s.wf(),
    ensures
        apply(s, e).wf(),
{
    match e {
        Event::Key { key, now } => lemma_key_keeps_wf(s, key, now),
        _ => {},
    }
}

/// Whatever happens to a well-formed session, in whatever order, it stays
/// well formed: every cursor stays inside its list, the search box has the
/// focus only while the search bar is shown, and an empty query has neither
/// results nor a pending search.
pub proof fn lemma_events_keep_wf(s: AppView, events: Seq<Event>)
    requires
        s.wf(),
    ensures
        after_events(s, events).wf(),
    decreases events.len(),
{
    if events.len() > 0 {
        lemma_events_keep_wf(s, events.drop_last());
        lemma_event_keeps_wf(after_events(s, events.drop_last()), events.last());
    }
}

/// No key press moves the cursor of an empty list.
pub proof fn lemma_key_leaves_cursor_of_empty_list(s: AppView, key: KeyEvent, now: u64)
    ensures
        s.playlists.len() == 0 ==> s.on_key(key, now).next.playlists_state == s.playlists_state,
        s.current_tracks.len() == 0 ==> s.on_key(key, now).next.tracks_state == s.tracks_state,
        s.search_results.len() == 0 ==> s.on_key(key, now).next.search_state == s.search_state,
{
}

/// Whatever happened before, a session whose query is empty shows no search
/// results and sends no search, at whatever time it is asked.
pub proof fn lemma_empty_query_sends_nothing(s: AppView, events: Seq<Event>, now: u64)
    requires
        s.wf(),
        after_events(s, events).search_input.len() == 0,
    ensures
        after_events(s, events).search_results.len() == 0,
        after_events(s, events).search_to_send(now) is None,
        search_sent(after_events(s, events), Event::SearchCheck { now }) is None,
{
    lemma_events_keep_wf(s, events);
}

/// A character typed into the search box joins the query, and the wait for
/// the search starts again at the time of the key press.
pub proof fn lemma_typing_restarts_wait(s: AppView, key: KeyEvent, now: u64)
    requires
        !(s.state is Error),
        !s.show_help,
        !s.show_playback_controls,
        s.show_search,
        s.focused_pane == FocusedPane::SearchInput,
        key.typed() is Some,
    ensures
        s.on_key(key, now).next.search_input == s.search_input.push(key.typed()->0),
        s.on_key(key, now).next.last_search_time == Some(now),
{
}

/// Backspace in the search box drops the last character. Where characters
/// are left, the wait for the search starts again at the time of the key
/// press; where none is, nothing is pending and no results are shown.
pub proof fn lemma_erasing_restarts_or_cancels(s: AppView, ctrl: bool, now: u64)
    requires
        !(s.state is Error),
        !s.show_help,
        !s.show_playback_controls,
        s.show_search,
        s.focused_pane == FocusedPane::SearchInput,
    ensures
        ({
            let next = s.on_key(KeyEvent { code: KeyCode::Backspace, ctrl }, now).next;
            &&& s.search_input.len() > 0 ==> next.search_input == s.search_input.drop_last()
            &&& s.search_input.len() == 0 ==> next.search_input == s.search_input
            &&& next.search_input.len() > 0 ==> next.last_search_time == Some(now)
            &&& next.search_input.len() == 0 ==> next.last_search_time is None
                && next.search_results.len() == 0
        }),
{
}

/// A session without pending search sends none while no key is pressed.
pub proof fn lemma_nothing_pending_sends_nothing(s: AppView, events: Seq<Event>)
    requires
        s.last_search_time is None,
        quiet(events),
    ensures
        searches_sent(s, events).len() == 0,
        after_events(s, events).last_search_time is None,
    decreases events.len(),
{
    if events.len() > 0 {
        let head = events.drop_last();
        assert(quiet(head)) by {
            assert forall|i: int| 0 <= i < head.len() implies !(#[trigger] head[i] is Key) by {
                assert(head[i] == events[i]);
            }
        }
        assert(!(events[events.len() - 1] is Key));
        lemma_nothing_pending_sends_nothing(s, head);
    }
}

/// While no key is pressed, a pending search stays pending with its query
/// until it is looked at after the quiet interval.
proof fn lemma_pending_until_checked(s: AppView, events: Seq<Event>)
    requires
        s.last_search_time is Some,
        quiet(events),
        !checked_after(events, s.last_search_time->0, s.search_debounce_ms),
    ensures
        searches_sent(s, events).len() == 0,
        after_events(s, events).last_search_time == s.last_search_time,
        after_events(s, events).search_input == s.search_input,
        after_events(s, events).search_debounce_ms == s.search_debounce_ms,
    decreases events.len(),
{
    if events.len() > 0 {
        let head = events.drop_last();
        let since = s.last_search_time->0;
        assert(quiet(head)) by {
            assert forall|i: int| 0 <= i < head.len() implies !(#[trigger] head[i] is Key) by {
                assert(head[i] == events[i]);
            }
        }
        assert(!checked_after(head, since, s.search_debounce_ms)) by {
            if checked_after(head, since, s.search_debounce_ms) {
                let i = choose|i: int|
                    0 <= i < head.len() && (#[trigger] head[i] matches Event::SearchCheck { now }
                        && elapsed_ms(since, now) >= s.search_debounce_ms);
                assert(head[i] == events[i]);
            }
        }
        lemma_pending_until_checked(s, head);
        let last = events[events.len() - 1];
        assert(!(last is Key));
        assert(!(last matches Event::SearchCheck { now } && elapsed_ms(since, now)
            >= s.search_debounce_ms));
    }
}

/// One search for each quiet period. After an edit of the query has left it
/// not empty, and while no further key is pressed, exactly one search is
/// sent if the loop looks at the pending search once the quiet interval has
/// passed since the edit, and none if it never does. The search that is sent
/// carries the query as the last key press left it.
pub proof fn lemma_one_search_per_quiet_period(s: AppView, events: Seq<Event>)
    requires
        s.last_search_time is Some,
        s.search_input.len() > 0,
        quiet(events),
    ensures
        checked_after(events, s.last_search_time->0, s.search_debounce_ms) ==> searches_sent(
            s,
            events,
        ) == seq![s.search_input],
        !checked_after(events, s.last_search_time->0, s.search_debounce_ms) ==> searches_sent(
            s,
            events,
        ).len() == 0,
    decreases events.len(),
{
    let since = s.last_search_time->0;
    let interval = s.search_debounce_ms;
    if !checked_after(events, since, interval) {
        lemma_pending_until_checked(s, events);
    } else {
        let head = events.drop_last();
        let last = events[events.len() - 1];
        assert(events.len() > 0);
        assert(quiet(head)) by {
            assert forall|i: int| 0 <= i < head.len() implies !(#[trigger] head[i] is Key) by {
                assert(head[i] == events[i]);
            }
        }
        assert(!(last is Key));
        if checked_after(head, since, interval) {
            lemma_one_search_per_quiet_period(s, head);
            lemma_fired_search_is_over(s, head);
            assert(search_sent(after_events(s, head), last) is None);
        } else {
            lemma_pending_until_checked(s, head);
            let i = choose|i: int|
                0 <= i < events.len() && (#[trigger] events[i] matches Event::SearchCheck { now }
                    && elapsed_ms(since, now) >= interval);
            if i < head.len() {
                assert(head[i] == events[i]);
                assert(checked_after(head, since, interval));
            }
            assert(i == events.len() - 1);
            assert(searches_sent(s, events) =~= seq![s.search_input]);
        }
    }
}

/// Once the pending search was looked at after the quiet interval, nothing
/// is pending any more while no key is pressed.
proof fn lemma_fired_search_is_over(s: AppView, events: Seq<Event>)
    requires
        s.last_search_time is Some,
        quiet(events),
        checked_after(events, s.last_search_time->0, s.search_debounce_ms),
    ensures
        after_events(s, events).last_search_time is None,
    decreases events.len(),
{
    let since = s.last_search_time->0;
    let interval = s.search_debounce_ms;
    let head = events.drop_last();
    let last = events[events.len() - 1];
    assert(quiet(head)) by {
        assert forall|i: int| 0 <= i < head.len() implies !(#[trigger] head[i] is Key) by {
            assert(head[i] == events[i]);
        }
    }
    assert(!(last is Key));
    if checked_after(head, since, interval) {
        lemma_fired_search_is_over(s, head);
    } else {
        lemma_pending_until_checked(s, head);
        let i = choose|i: int|
            0 <= i < events.len() && (#[trigger] events[i] matches Event::SearchCheck { now }
                && elapsed_ms(since, now) >= interval);
        if i < head.len() {
            assert(head[i] == events[i]);
            assert(checked_after(head, since, interval));
        }
    }
}

/// An error popup and its dismissal leave no trace. When an operation fails
/// and any key is then pressed, the session is as it was just before the
/// failure, but for being ready, and the key asks for nothing.
pub proof fn lemma_error_dismissal_restores(s: AppView, message: Seq<char>, key: KeyEvent, now: u64)
    ensures
        s.failed(message).on_key(key, now).next == (AppView { state: Phase::Ready, ..s }),
        s.failed(message).on_key(key, now).action == ActionView::Nothing,
        s.state is Ready ==> s.failed(message).on_key(key, now).next == s,
{
}

/// Any key dismisses an error popup and changes nothing but the phase.
pub proof fn lemma_error_takes_the_key(s: AppView, key: KeyEvent, now: u64)
    requires
        s.state is Error,
    ensures
        s.on_key(key, now) == (Step {
            next: AppView { state: Phase::Ready, ..s },
            action: ActionView::Nothing,
        }),
{
}

/// Whatever happens to a well-formed session, the search box never has the
/// focus while the search bar is hidden.
pub proof fn lemma_search_focus_needs_search_bar(s: AppView, events: Seq<Event>)
    requires
        s.wf(),
    ensures
        after_events(s, events).focused_pane == FocusedPane::SearchInput ==> after_events(
            s,
            events,
        ).show_search,
{
    lemma_events_keep_wf(s, events);
}

/// Where the panes take the keys (no error, help popup or playback menu is
/// shown), one press of Tab moves the focus from the playlists to the tracks.
pub proof fn lemma_tab_from_playlists(s: AppView, ctrl: bool, now: u64)
    requires
        !(s.state is Error),
        !s.show_help,
        !s.show_playback_controls,
        s.focused_pane == FocusedPane::Playlists,
    ensures
        s.on_key(KeyEvent { code: KeyCode::Tab, ctrl }, now).next.focused_pane
            == FocusedPane::Tracks,
{
}

} // verus!
