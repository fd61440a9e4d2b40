//! What the screen says: the texts and lists that a renderer draws, worked
//! out from the session's state.

use vstd::prelude::*;
use crate::app::App;
use crate::spotify::{Artist, Queue};
use crate::text::{decimal_text, digit_char, owned, push_decimal, same_text};

verus! {

/// Number of queued tracks that the queue pane lists.
pub const QUEUE_SHOWN: usize = 10;

/// The track at index `i` of the queue is shown as upcoming: it is not the
/// track that is playing, and no track before it has its id.
pub open spec fn is_upcoming(queue: Queue, i: int) -> bool {
    &&& 0 <= i < queue.queue@.len()
    &&& !(queue.currently_playing matches Some(current) && current.id@ == queue.queue@[i].id@)
    &&& forall|j: int| 0 <= j < i ==> queue.queue@[j].id@ != queue.queue@[i].id@
}

/// The indices below `n` of the upcoming tracks, in ascending order.
pub open spec fn upcoming_before(queue: Queue, n: int) -> Seq<usize>
    decreases n,
{
    if n <= 0 {
        Seq::empty()
    } else if is_upcoming(queue, n - 1) {
        upcoming_before(queue, n - 1).push((n - 1) as usize)
    } else {
        upcoming_before(queue, n - 1)
    }
}

/// The indices of the upcoming tracks of the queue, in ascending order.
pub open spec fn upcoming(queue: Queue) -> Seq<usize> {
    upcoming_before(queue, queue.queue@.len() as int)
}

/// The indices of the tracks of the queue that the queue pane counts and
/// lists: each track once, by its id, and without the track that is playing.
pub fn upcoming_tracks(queue: &Queue) -> (indices: Vec<usize>)
    ensures
        indices@ == upcoming(*queue),
{
    let mut indices: Vec<usize> = Vec::new();
    let mut i: usize = 0;
    while i < queue.queue.len()
        invariant
            i <= queue.queue.len(),
            indices@ == upcoming_before(*queue, i as int),
        decreases queue.queue.len() - i,
    {
        let id = queue.queue[i].id.as_str();
        let playing = match &queue.currently_playing {
            Some(current) => same_text(current.id.as_str(), id),
            None => false,
        };
        let mut seen = false;
        let mut j: usize = 0;
        while j < i && !seen
            invariant
                j <= i,
                i < queue.queue.len(),
                id@ == queue.queue@[i as int].id@,
                seen ==> exists|k: int| 0 <= k < i && queue.queue@[k].id@ == id@,
                !seen ==> forall|k: int| 0 <= k < j ==> queue.queue@[k].id@ != id@,
            decreases i - j + if seen { 0int } else { 1int },
        {
            if same_text(queue.queue[j].id.as_str(), id) {
                seen = true;
            } else {
                j += 1;
            }
        }
        if !playing && !seen {
            indices.push(i);
        }
        i += 1;
    }
    indices
}

/// The title of the queue pane, given the number of upcoming tracks, or
/// `None` while nothing is known of the queue.
pub open spec fn queue_title_text(upcoming: Option<usize>) -> Seq<char> {
    match upcoming {
        None => "Queue"@,
        Some(count) => if count > QUEUE_SHOWN {
            "Queue ("@ + decimal_text(count as nat) + " songs, showing first 10)"@
        } else {
            "Queue ("@ + decimal_text(count as nat) + " songs)"@
        },
    }
}

/// The title of the queue pane.
pub fn queue_title(upcoming: Option<usize>) -> (title: String)
    ensures
        title@ == queue_title_text(upcoming),
{
    match upcoming {
        None => owned("Queue"),
        Some(count) => {
            let mut title = owned("Queue (");
            push_decimal(&mut title, count as u64);
            if count > QUEUE_SHOWN {
                title.push_str(" songs, showing first 10)");
            } else {
                title.push_str(" songs)");
            }
            title
        },
    }
}

/// A time as minutes, a colon, and seconds in two digits.
pub open spec fn clock_text(ms: u64) -> Seq<char> {
    let seconds = ms as nat / 1000;
    decimal_text(seconds / 60) + seq![':', digit_char((seconds % 60) / 10), digit_char(seconds % 10)]
}

/// How far the track has played and how long it is, as shown under it.
pub open spec fn progress_text_of(progress_ms: u64, duration_ms: u32) -> Seq<char> {
    " "@ + clock_text(progress_ms) + " / "@ + clock_text(duration_ms as u64)
}

fn push_clock(out: &mut String, ms: u64)
    ensures
        final(out)@ == old(out)@ + clock_text(ms),
{
    let seconds: u64 = ms / 1000;
    push_decimal(out, seconds / 60);
    let rest: u64 = seconds % 60;
    out.push(':');
    out.push((48u8 + (rest / 10) as u8) as char);
    out.push((48u8 + (rest % 10) as u8) as char);
    assert(final(out)@ =~= old(out)@ + clock_text(ms)) by {
        assert((rest as nat) % 10 == (seconds as nat) % 10);
    }
}

/// How far the track has played and how long it is.
pub fn progress_text(progress_ms: u64, duration_ms: u32) -> (text: String)
    ensures
        text@ == progress_text_of(progress_ms, duration_ms),
{
    let mut text = owned(" ");
    push_clock(&mut text, progress_ms);
    text.push_str(" / ");
    push_clock(&mut text, duration_ms as u64);
    text
}

/// The names of the artists, separated by a comma and a space.
pub open spec fn artist_names_text(artists: Seq<Artist>) -> Seq<char>
    decreases artists.len(),
{
    if artists.len() == 0 {
        Seq::empty()
    } else if artists.len() == 1 {
        artists[0].name@
    } else {
        artist_names_text(artists.drop_last()) + ", "@ + artists.last().name@
    }
}

/// The names of the artists, separated by a comma and a space.
pub fn artist_names(artists: &Vec<Artist>) -> (names: String)
    ensures
        names@ == artist_names_text(artists@),
{
    let mut names = String::new();
    let mut i: usize = 0;
    while i < artists.len()
        invariant
            i <= artists.len(),
            names@ == artist_names_text(artists@.take(i as int)),
        decreases artists.len() - i,
    {
        proof {
            assert(artists@.take(i + 1).drop_last() =~= artists@.take(i as int));
        }
        if i > 0 {
            names.push_str(", ");
        }
        names.push_str(artists[i].name.as_str());
        i += 1;
    }
    proof {
        assert(artists@.take(artists@.len() as int) =~= artists@);
    }
    names
}

/// The title of the track pane: that of the search while the search bar is
/// shown, else the name of the highlighted playlist, if one is highlighted
/// and lies inside the list.
pub open spec fn tracks_title_text(app: App) -> Seq<char> {
    if app.show_search {
        "Search Results"@
    } else {
        match app.playlists_state.index {
            Some(i) => if i < app.playlists@.len() {
                app.playlists@[i as int].name@
            } else {
                "Tracks"@
            },
            None => "Tracks"@,
        }
    }
}

/// The title of the track pane.
pub fn tracks_title(app: &App) -> (title: String)
    ensures
        title@ == tracks_title_text(*app),
{
    if app.show_search {
        owned("Search Results")
    } else {
        match app.playlists_state.index {
            Some(i) => {
                if i < app.playlists.len() {
                    app.playlists[i].name.clone()
                } else {
                    owned("Tracks")
                }
            },
            None => owned("Tracks"),
        }
    }
}

/// The rows left free above and below a popup of `height` rows that is
/// centred in an area of `total` rows; none where the popup does not fit.
pub open spec fn margin_rows(total: u16, height: u16) -> u16 {
    if height <= total {
        ((total - height) / 2) as u16
    } else {
        0
    }
}

/// The rows left free above and below a centred popup.
pub fn popup_margin(total: u16, height: u16) -> (rows: u16)
    ensures
        rows == margin_rows(total, height),
{
    if height <= total {
        (total - height) / 2
    } else {
        0
    }
}

/// The share of the width, in percent, left free on each side of a popup
/// that takes `percent` of it; none where it takes more than all.
pub open spec fn side_share(percent: u16) -> u16 {
    if percent <= 100 {
        ((100 - percent) / 2) as u16
    } else {
        0
    }
}

/// The share of the width left free on each side of a centred popup.
pub fn popup_side_percent(percent: u16) -> (share: u16)
    ensures
        share == side_share(percent),
{
    if percent <= 100 {
        (100 - percent) / 2
    } else {
        0
    }
}

/// Whether the player was last known to be playing.
pub fn is_playing(app: &App) -> (playing: bool)
    ensures
        playing == (app.currently_playing matches Some(current) && current.is_playing),
{
    match &app.currently_playing {
        Some(current) => current.is_playing,
        None => false,
    }
}

} // verus!
