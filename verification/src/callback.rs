//! The local listener that waits for the browser to come back from the
//! authorization page: what it reads out of a request, and what it does on
//! each thing that can happen to it.

use vstd::prelude::*;
use crate::error::ApiError;
use crate::request::params_text;
use crate::text::{
    chars_of, find_from, first_occurrence, is_first_occurrence, joined, matches_at, occurs_at,
    text_of,
};

verus! {

/// Seconds the listener waits for the redirect before it gives up.
pub const CALLBACK_TIMEOUT_SECS: u64 = 60;

/// Milliseconds the listener lets a new connection settle before it reads.
pub const SETTLE_DELAY_MS: u64 = 100;

/// The address the listener binds.
pub const LISTEN_ADDRESS: &'static str = "127.0.0.1:8888";

/// What the browser is answered once the code was found.
pub const SUCCESS_RESPONSE: &'static str =
    "HTTP/1.1 200 OK\r\nContent-Type: text/html\r\nConnection: close\r\n\r\n<html><body><h1>Authentication successful!</h1><p>You can close this window and return to the terminal.</p></body></html>";

/// The names and values of the query of the URL `url`, in order and decoded,
/// or `None` where `url` is no absolute URL.
pub uninterp spec fn url_query_pairs(url: Seq<char>) -> Option<Seq<(Seq<char>, Seq<char>)>>;

/// `Url::parse` of the `url` crate, and `Url::query_pairs` on what it
/// returns: the pairs of the query as owned strings, or `None` where
/// parsing fails.
#[verifier::external_body]
fn query_pairs(url: &str) -> (pairs: Option<Vec<(String, String)>>)
    ensures
        match pairs {
            Some(found) => url_query_pairs(url@) == Some(params_text(found@)),
            None => url_query_pairs(url@) is None,
        },
{
    match url::Url::parse(url) {
        Ok(parsed) => Some(
            parsed.query_pairs().map(|(name, value)| (name.into_owned(), value.into_owned())).collect(),
        ),
        Err(_) => None,
    }
}

/// The value of the first pair named `code`.
pub open spec fn code_in(pairs: Seq<(Seq<char>, Seq<char>)>) -> Option<Seq<char>>
    decreases pairs.len(),
{
    if pairs.len() == 0 {
        None
    } else if pairs[0].0 == "code"@ {
        Some(pairs[0].1)
    } else {
        code_in(pairs.drop_first())
    }
}

/// A character that ends a line.
pub open spec fn is_line_end(c: char) -> bool {
    c == '\r' || c == '\n'
}

/// The first line of `text` has `n` characters: none of them ends a line,
/// and the text ends after them or goes on with one that does.
pub open spec fn is_line_length(text: Seq<char>, n: int) -> bool {
    &&& 0 <= n <= text.len()
    &&& forall|i: int| 0 <= i < n ==> !is_line_end(#[trigger] text[i])
    &&& n < text.len() ==> is_line_end(text[n])
}

/// The request line: the text up to its first carriage return or line feed.
pub open spec fn request_line(text: Seq<char>) -> Seq<char> {
    text.take(choose|n: int| is_line_length(text, n))
}

/// A first line has one length only.
pub proof fn lemma_request_line_is(text: Seq<char>, n: int)
    requires
        is_line_length(text, n),
    ensures
        request_line(text) == text.take(n),
{
    let chosen = choose|k: int| is_line_length(text, k);
    assert(is_line_length(text, chosen));
    if chosen < n {
        assert(!is_line_end(text[chosen]));
    }
    if n < chosen {
        assert(!is_line_end(text[n]));
    }
}

/// The query of a line that begins with `prefix`: what follows the prefix,
/// up to the next space of the line. `None` where the line does not begin
/// with `prefix`, or holds no space after it.
pub open spec fn query_of_line(line: Seq<char>, prefix: Seq<char>) -> Option<Seq<char>> {
    if occurs_at(line, prefix, 0) {
        let rest = line.skip(prefix.len() as int);
        match first_occurrence(rest, seq![' ']) {
            Some(end) => Some(rest.take(end)),
            None => None,
        }
    } else {
        None
    }
}

/// The query of a redirect request: that of its request line, where the
/// line is a `GET` on `/callback` or on `/` with a query. Nothing after the
/// request line is looked at.
pub open spec fn request_query_text(request: Seq<char>) -> Option<Seq<char>> {
    let line = request_line(request);
    match query_of_line(line, "GET /callback?"@) {
        Some(query) => Some(query),
        None => query_of_line(line, "GET /?"@),
    }
}

/// The URL that the query of a request is read as part of.
pub open spec fn callback_url(query: Seq<char>) -> Seq<char> {
    "http://127.0.0.1:8888/?"@ + query
}

/// The authorization code that a query names: the value of its first
/// parameter `code`, decoded.
pub open spec fn code_of_query(query: Seq<char>) -> Option<Seq<char>> {
    match url_query_pairs(callback_url(query)) {
        Some(pairs) => code_in(pairs),
        None => None,
    }
}

/// The authorization code that a request carries: the `code` parameter of
/// the query of its request line, where that line is a `GET` on `/callback`
/// or on `/`. Every other request carries none.
pub open spec fn extracted_code(request: Seq<char>) -> Option<Seq<char>> {
    match request_query_text(request) {
        Some(query) => code_of_query(query),
        None => None,
    }
}

/// Only the request line counts: two requests with the same request line
/// carry the same code, whatever follows the line.
pub proof fn lemma_only_request_line_counts(a: Seq<char>, b: Seq<char>)
    requires
        request_line(a) == request_line(b),
    ensures
        request_query_text(a) == request_query_text(b),
        extracted_code(a) == extracted_code(b),
{
}

/// A request whose request line begins with neither `GET /callback?` nor
/// `GET /?` carries no code.
pub proof fn lemma_other_requests_carry_no_code(request: Seq<char>)
    requires
        !occurs_at(request_line(request), "GET /callback?"@, 0),
        !occurs_at(request_line(request), "GET /?"@, 0),
    ensures
        request_query_text(request) is None,
        extracted_code(request) is None,
{
}

/// A request line that holds no space after its path carries no code.
pub proof fn lemma_query_is_ended_by_a_space(request: Seq<char>)
    requires
        forall|i: int| 0 <= i < request_line(request).len() ==> request_line(request)[i] != ' ',
    ensures
        request_query_text(request) is None,
        extracted_code(request) is None,
{
    let line = request_line(request);
    assert forall|prefix: Seq<char>| query_of_line(line, prefix) is None by {
        if occurs_at(line, prefix, 0) {
            let rest = line.skip(prefix.len() as int);
            if first_occurrence(rest, seq![' ']) is Some {
                let end = choose|i: int| is_first_occurrence(rest, seq![' '], i);
                assert(rest.subrange(end, end + 1)[0] == ' ');
                assert(rest[end] == line[prefix.len() + end]);
            }
        }
    }
}

/// The value of the first pair named `code`.
pub fn code_value(pairs: &Vec<(String, String)>) -> (code: Option<String>)
    ensures
        text_of(code) == code_in(params_text(pairs@)),
{
    let name = "code".to_owned();
    let mut i: usize = 0;
    assert(params_text(pairs@).skip(0) =~= params_text(pairs@));
    while i < pairs.len()
        invariant
            i <= pairs.len(),
            name@ == "code"@,
            code_in(params_text(pairs@)) == code_in(params_text(pairs@).skip(i as int)),
        decreases pairs.len() - i,
    {
        let ghost rest = params_text(pairs@).skip(i as int);
        proof {
            assert(rest[0] == (pairs@[i as int].0@, pairs@[i as int].1@));
            assert(rest.drop_first() =~= params_text(pairs@).skip(i + 1));
        }
        if pairs[i].0 == name {
            return Some(pairs[i].1.clone());
        }
        i += 1;
    }
    None
}

/// The number of characters of the first line of `text`.
pub fn line_length(text: &Vec<char>) -> (n: usize)
    ensures
        is_line_length(text@, n as int),
        request_line(text@) == text@.take(n as int),
{
    let mut n: usize = 0;
    while n < text.len() && text[n] != '\r' && text[n] != '\n'
        invariant
            n <= text.len(),
            forall|i: int| 0 <= i < n ==> !is_line_end(#[trigger] text@[i]),
        decreases text.len() - n,
    {
        n += 1;
    }
    proof {
        lemma_request_line_is(text@, n as int);
    }
    n
}

fn query_of(request: &str, line: &Vec<char>, prefix: &str) -> (query: Option<String>)
    requires
        line@.len() <= request@.len(),
        line@ == request@.take(line@.len() as int),
    ensures
        text_of(query) == query_of_line(line@, prefix@),
{
    let needle = chars_of(prefix);
    if needle.len() > line.len() || !matches_at(line, 0, &needle) {
        return None;
    }
    let mut space: Vec<char> = Vec::new();
    space.push(' ');
    assert(space@ =~= seq![' ']);
    let from = needle.len();
    match find_from(line, from, &space) {
        Some(end) => {
            let query = request.substring_char(from, from + end);
            assert(query@ =~= line@.skip(from as int).take(end as int));
            Some(query.to_owned())
        },
        None => None,
    }
}

/// The query of the request line of `request`, where that line is a `GET`
/// on `/callback` or on `/` with a query that a space ends.
pub fn request_query(request: &str) -> (query: Option<String>)
    ensures
        text_of(query) == request_query_text(request@),
{
    let mut line = chars_of(request);
    let n = line_length(&line);
    line.truncate(n);
    assert(line@ =~= request_line(request@));
    match query_of(request, &line, "GET /callback?") {
        Some(query) => Some(query),
        None => query_of(request, &line, "GET /?"),
    }
}

/// The authorization code that `request` carries, if its request line is a
/// `GET` on `/callback` or on `/` whose query names a `code`.
pub fn extract_code_from_request(request: &str) -> (code: Option<String>)
    ensures
        text_of(code) == extracted_code(request@),
{
    match request_query(request) {
        Some(query) => {
            let url = joined("http://127.0.0.1:8888/?", query.as_str());
            match query_pairs(url.as_str()) {
                Some(pairs) => code_value(&pairs),
                None => None,
            }
        },
        None => None,
    }
}

/// What can happen to the listener.
#[derive(Debug, Clone, PartialEq, Eq)]
pub enum CallbackEvent {
    /// The address could not be bound.
    BindFailed,
    /// A connection was accepted and this text was read from it.
    Request(String),
    /// A connection could not be accepted or read.
    ConnectionFailed,
    /// The time to wait is over.
    TimedOut,
}

/// What the listener does next.
#[derive(Debug, Clone, PartialEq, Eq)]
pub enum CallbackStep {
    /// Drop the connection, if there is one, and wait for the next.
    Listen,
    /// Answer [`SUCCESS_RESPONSE`], stop listening, and exchange this code
    /// for tokens.
    Respond(String),
    /// Stop listening; the attempt has failed.
    Fail(ApiError),
}

/// The step that an event calls for, with texts as characters.
pub enum CallbackStepView {
    Listen,
    Respond(Seq<char>),
    Fail(ApiError),
}

impl View for CallbackStep {
    type V = CallbackStepView;

    open spec fn view(&self) -> CallbackStepView {
        match self {
            CallbackStep::Listen => CallbackStepView::Listen,
            CallbackStep::Respond(code) => CallbackStepView::Respond(code@),
            CallbackStep::Fail(e) => CallbackStepView::Fail(*e),
        }
    }
}

/// The step that `event` calls for. A request whose request line carries a
/// code ends the wait with success, any other request and a failed
/// connection leave the listener waiting, and only a failed bind or the end of the time to wait
/// end the attempt in failure.
pub open spec fn step_for(event: CallbackEvent) -> CallbackStepView {
    match event {
        CallbackEvent::BindFailed => CallbackStepView::Fail(ApiError::ListenerBindFailed),
        CallbackEvent::Request(text) => match extracted_code(text@) {
            Some(code) => CallbackStepView::Respond(code),
            None => CallbackStepView::Listen,
        },
        CallbackEvent::ConnectionFailed => CallbackStepView::Listen,
        CallbackEvent::TimedOut => CallbackStepView::Fail(ApiError::AuthTimeout),
    }
}

/// What the listener does on `event`.
pub fn callback_step(event: &CallbackEvent) -> (step: CallbackStep)
    ensures
        step@ == step_for(*event),
{
    match event {
        CallbackEvent::BindFailed => CallbackStep::Fail(ApiError::ListenerBindFailed),
        CallbackEvent::Request(text) => match extract_code_from_request(text.as_str()) {
            Some(code) => CallbackStep::Respond(code),
            None => CallbackStep::Listen,
        },
        CallbackEvent::ConnectionFailed => CallbackStep::Listen,
        CallbackEvent::TimedOut => CallbackStep::Fail(ApiError::AuthTimeout),
    }
}

} // verus!
