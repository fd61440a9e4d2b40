//! A request to the music service as plain data, for the driver to send.

use vstd::prelude::*;
use crate::text::text_of;

verus! {

/// The HTTP method of a request.
#[derive(Debug, Clone, Copy, PartialEq, Eq)]
pub enum Method {
    Get,
    Post,
    Put,
}

/// What a request carries besides its address.
#[derive(Debug, Clone, PartialEq, Eq)]
pub enum Body {
    /// Nothing.
    Absent,
    /// Nothing, announced by a `Content-Length` of zero.
    Empty,
    /// Names and values, sent as a form.
    Form(Vec<(String, String)>),
    /// A JSON object whose member `uris` lists these track URIs.
    Uris(Vec<String>),
}

/// One request to the music service.
#[derive(Debug, Clone, PartialEq, Eq)]
pub struct Request {
    pub method: Method,
    pub url: String,
    /// The access token to authorize with, where the request needs one.
    pub bearer: Option<String>,
    /// Names and values to append to the address as its query.
    pub query: Vec<(String, String)>,
    pub body: Body,
}

/// The characters of each name and value.
pub open spec fn params_text(params: Seq<(String, String)>) -> Seq<(Seq<char>, Seq<char>)> {
    params.map_values(|pair: (String, String)| (pair.0@, pair.1@))
}

/// The characters of each string.
pub open spec fn texts(items: Seq<String>) -> Seq<Seq<char>> {
    items.map_values(|item: String| item@)
}

/// A body, with its texts as characters.
pub enum BodyView {
    Absent,
    Empty,
    Form(Seq<(Seq<char>, Seq<char>)>),
    Uris(Seq<Seq<char>>),
}

/// A request, with its texts as characters.
pub struct RequestView {
    pub method: Method,
    pub url: Seq<char>,
    pub bearer: Option<Seq<char>>,
    pub query: Seq<(Seq<char>, Seq<char>)>,
    pub body: BodyView,
}

impl View for Body {
    type V = BodyView;

    open spec fn view(&self) -> BodyView {
        match self {
            Body::Absent => BodyView::Absent,
            Body::Empty => BodyView::Empty,
            Body::Form(params) => BodyView::Form(params_text(params@)),
            Body::Uris(uris) => BodyView::Uris(texts(uris@)),
        }
    }
}

impl View for Request {
    type V = RequestView;

    open spec fn view(&self) -> RequestView {
        RequestView {
            method: self.method,
            url: self.url@,
            bearer: text_of(self.bearer),
            query: params_text(self.query@),
            body: self.body@,
        }
    }
}

/// A pair of owned strings with the characters of `name` and `value`.
pub fn param(name: &str, value: &str) -> (pair: (String, String))
    ensures
        pair.0@ == name@,
        pair.1@ == value@,
{
    (name.to_owned(), value.to_owned())
}

} // verus!
