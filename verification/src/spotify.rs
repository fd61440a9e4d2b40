//! What the music service hands out (tracks, playlists, devices, the
//! player's state, the play queue), and the client that holds the tokens,
//! builds the requests and reads the answers.

use vstd::prelude::*;
use crate::error::{is_success, is_success_status, ApiError, Operation};
use crate::pkce::{authorization_url, authorization_url_text, AuthorizationAttempt};
use crate::request::{param, params_text, texts, Body, BodyView, Method, Request, RequestView};
use crate::text::{joined, same_text, text_of};

verus! {

/// Where tokens are issued and renewed.
pub const TOKEN_URL: &'static str = "https://accounts.spotify.com/api/token";

/// The identifier of the list of saved tracks, which is shown as a playlist.
pub const LIKED_ID: &'static str = "liked";

/// A track, by its id, with the URI that the player takes.
#[derive(Debug, Clone)]
pub struct Track {
    pub id: String,
    pub name: String,
    pub artists: Vec<Artist>,
    pub album: Album,
    pub duration_ms: u32,
    pub uri: String,
}

/// An artist of a track.
#[derive(Debug, Clone)]
pub struct Artist {
    pub id: String,
    pub name: String,
}

/// The album a track is on.
#[derive(Debug, Clone)]
pub struct Album {
    pub id: String,
    pub name: String,
    pub images: Vec<Image>,
}

/// A cover image, with its size where the service tells it.
#[derive(Debug, Clone)]
pub struct Image {
    pub height: Option<u32>,
    pub url: String,
    pub width: Option<u32>,
}

/// A playlist, by its id.
#[derive(Debug, Clone)]
pub struct Playlist {
    pub id: String,
    pub name: String,
    pub description: Option<String>,
    pub tracks: PlaylistTracks,
}

/// How many tracks a playlist has.
#[derive(Debug, Clone)]
pub struct PlaylistTracks {
    pub total: u32,
}

/// A device that can play.
#[derive(Debug, Clone)]
pub struct Device {
    pub id: Option<String>,
    pub name: String,
    pub device_type: String,
    pub is_active: bool,
}

/// What the player is doing.
#[derive(Debug, Clone)]
pub struct CurrentlyPlaying {
    pub item: Option<Track>,
    pub is_playing: bool,
    pub progress_ms: Option<u64>,
    pub device: Option<Device>,
}

/// The track that plays and those that follow it.
#[derive(Debug, Clone)]
pub struct Queue {
    pub currently_playing: Option<Track>,
    pub queue: Vec<Track>,
}

/// The tokens of the session and the identifier of the application they
/// were issued to.
pub struct SpotifyClient {
    access_token: Option<String>,
    refresh_token: Option<String>,
    client_id: String,
}

/// What a [`SpotifyClient`] holds, as characters.
pub struct ClientView {
    pub access_token: Option<Seq<char>>,
    pub refresh_token: Option<Seq<char>>,
    pub client_id: Seq<char>,
}

impl View for SpotifyClient {
    type V = ClientView;

    closed spec fn view(&self) -> ClientView {
        ClientView {
            access_token: text_of(self.access_token),
            refresh_token: text_of(self.refresh_token),
            client_id: self.client_id@,
        }
    }
}

/// An access token and, where the service sent one, a refresh token.
#[derive(Debug, Clone, PartialEq, Eq)]
pub struct TokenPair {
    pub access_token: String,
    pub refresh_token: Option<String>,
}

impl ClientView {
    /// The client after it was handed new tokens. A refresh token that is
    /// missing leaves the one that is held in place.
    pub open spec fn with_tokens(self, access: Seq<char>, refresh: Option<Seq<char>>) -> ClientView {
        ClientView {
            access_token: Some(access),
            refresh_token: if refresh is Some {
                refresh
            } else {
                self.refresh_token
            },
            client_id: self.client_id,
        }
    }

    /// A request without query and body for `url`, authorized with the
    /// access token.
    pub open spec fn authorized(self, method: Method, url: Seq<char>) -> RequestView {
        RequestView {
            method,
            url,
            bearer: self.access_token,
            query: Seq::empty(),
            body: BodyView::Absent,
        }
    }

    /// The form that renews the access token.
    pub open spec fn refresh_form(self) -> Seq<(Seq<char>, Seq<char>)> {
        seq![
            ("grant_type"@, "refresh_token"@),
            ("refresh_token"@, self.refresh_token->0),
            ("client_id"@, self.client_id),
        ]
    }

    /// The form that exchanges an authorization code for tokens.
    pub open spec fn exchange_form(
        self,
        code: Seq<char>,
        code_verifier: Seq<char>,
        redirect_uri: Seq<char>,
    ) -> Seq<(Seq<char>, Seq<char>)> {
        seq![
            ("grant_type"@, "authorization_code"@),
            ("code"@, code),
            ("redirect_uri"@, redirect_uri),
            ("client_id"@, self.client_id),
            ("code_verifier"@, code_verifier),
        ]
    }
}

/// Tokens that are held stay held: new tokens always bring an access
/// token, and never take a refresh token away.
pub proof fn lemma_tokens_stay_held(client: ClientView, access: Seq<char>, refresh: Option<Seq<char>>)
    ensures
        client.with_tokens(access, refresh).access_token is Some,
        client.refresh_token is Some ==> client.with_tokens(access, refresh).refresh_token is Some,
        refresh is None ==> client.with_tokens(access, refresh).refresh_token == client.refresh_token,
        client.with_tokens(access, refresh).client_id == client.client_id,
{
}

/// A request to the token endpoint that sends `form`.
pub open spec fn token_request(form: Seq<(Seq<char>, Seq<char>)>) -> RequestView {
    RequestView {
        method: Method::Post,
        url: TOKEN_URL@,
        bearer: None,
        query: Seq::empty(),
        body: BodyView::Form(form),
    }
}

/// The address of the tracks of the playlist `playlist_id`; the saved tracks
/// have an address of their own.
pub open spec fn playlist_tracks_url(playlist_id: Seq<char>) -> Seq<char> {
    if playlist_id == LIKED_ID@ {
        "https://api.spotify.com/v1/me/tracks?limit=50"@
    } else {
        "https://api.spotify.com/v1/playlists/"@ + playlist_id + "/tracks"@
    }
}

/// The entry that stands for the saved tracks in the list of playlists.
pub open spec fn is_liked_songs(playlist: Playlist) -> bool {
    &&& playlist.id@ == LIKED_ID@
    &&& playlist.name@ == "Liked Songs"@
    &&& playlist.description is None
    &&& playlist.tracks.total == 50
}

impl SpotifyClient {
    /// A client without tokens. The secret is taken for the caller's
    /// convenience and not kept: the authorization flow never sends it.
    pub fn new(client_id: String, _client_secret: String) -> (client: SpotifyClient)
        ensures
            client@ == (ClientView {
                access_token: None,
                refresh_token: None,
                client_id: client_id@,
            }),
    {
        SpotifyClient { access_token: None, refresh_token: None, client_id }
    }

    /// Whether an access token is held.
    pub fn is_authenticated(&self) -> (b: bool)
        ensures
            b == self@.access_token is Some,
    {
        self.access_token.is_some()
    }

    /// Whether a refresh token is held.
    pub fn has_refresh_token(&self) -> (b: bool)
        ensures
            b == self@.refresh_token is Some,
    {
        self.refresh_token.is_some()
    }

    /// The access token, or `NotAuthenticated` while none is held.
    pub fn current_access_token(&self) -> (token: Result<String, ApiError>)
        ensures
            match token {
                Ok(text) => self@.access_token == Some(text@),
                Err(e) => self@.access_token is None && e == ApiError::NotAuthenticated,
            },
    {
        match &self.access_token {
            Some(token) => Ok(token.clone()),
            None => Err(ApiError::NotAuthenticated),
        }
    }

    /// Takes the tokens that the service issued. A pair without refresh
    /// token leaves the refresh token that is held in place.
    pub fn set_initial(&mut self, tokens: TokenPair)
        ensures
            final(self)@ == old(self)@.with_tokens(
                tokens.access_token@,
                text_of(tokens.refresh_token),
            ),
            final(self)@.access_token is Some,
            old(self)@.refresh_token is Some ==> final(self)@.refresh_token is Some,
    {
        self.access_token = Some(tokens.access_token);
        match tokens.refresh_token {
            Some(refresh) => {
                self.refresh_token = Some(refresh);
            },
            None => {},
        }
    }

    /// Starts an authorization attempt: fresh secrets, and the address to
    /// open in the browser with them.
    pub fn authenticate(&self) -> (started: (AuthorizationAttempt, String))
        ensures
            started.0.wf(),
            started.1@ == authorization_url_text(
                self@.client_id,
                started.0.code_challenge@,
                started.0.state@,
            ),
    {
        let attempt = AuthorizationAttempt::new();
        let url = authorization_url(self.client_id.as_str(), &attempt);
        (attempt, url)
    }

    /// The request that exchanges the authorization code for tokens.
    pub fn exchange_code_for_token(&self, code: &str, code_verifier: &str, redirect_uri: &str) -> (request: Request)
        ensures
            request@ == token_request(self@.exchange_form(code@, code_verifier@, redirect_uri@)),
    {
        let mut form: Vec<(String, String)> = Vec::new();
        form.push(param("grant_type", "authorization_code"));
        form.push(param("code", code));
        form.push(param("redirect_uri", redirect_uri));
        form.push(param("client_id", self.client_id.as_str()));
        form.push(param("code_verifier", code_verifier));
        assert(params_text(form@) =~= self@.exchange_form(code@, code_verifier@, redirect_uri@));
        let query: Vec<(String, String)> = Vec::new();
        assert(params_text(query@) =~= Seq::empty());
        Request {
            method: Method::Post,
            url: TOKEN_URL.to_owned(),
            bearer: None,
            query,
            body: Body::Form(form),
        }
    }

    /// The answer to the exchange of the authorization code: the tokens are
    /// taken when the service answered with success and sent any. Otherwise
    /// the exchange has failed and the client is as before.
    pub fn token_received(&mut self, status: u16, tokens: Option<TokenPair>) -> (r: Result<(), ApiError>)
        ensures
            match r {
                Ok(_) => is_success_status(status) && tokens is Some && final(self)@ == old(
                    self,
                )@.with_tokens(tokens->0.access_token@, text_of(tokens->0.refresh_token)),
                Err(e) => !(is_success_status(status) && tokens is Some) && e
                    == (ApiError::AuthExchangeFailed { status }) && *final(self) == *old(self),
            },
            old(self)@.access_token is Some ==> final(self)@.access_token is Some,
            old(self)@.refresh_token is Some ==> final(self)@.refresh_token is Some,
    {
        if !is_success(status) {
            return Err(ApiError::AuthExchangeFailed { status });
        }
        match tokens {
            Some(pair) => {
                self.set_initial(pair);
                Ok(())
            },
            None => Err(ApiError::AuthExchangeFailed { status }),
        }
    }

    /// The request that renews the access token.
    pub fn refresh_access_token(&self) -> (request: Request)
        requires
            self@.refresh_token is Some,
        ensures
            request@ == token_request(self@.refresh_form()),
    {
        let mut form: Vec<(String, String)> = Vec::new();
        form.push(param("grant_type", "refresh_token"));
        match &self.refresh_token {
            Some(token) => {
                form.push(param("refresh_token", token.as_str()));
            },
            None => {},
        }
        form.push(param("client_id", self.client_id.as_str()));
        assert(params_text(form@) =~= self@.refresh_form());
        let query: Vec<(String, String)> = Vec::new();
        assert(params_text(query@) =~= Seq::empty());
        Request {
            method: Method::Post,
            url: TOKEN_URL.to_owned(),
            bearer: None,
            query,
            body: Body::Form(form),
        }
    }

    /// The request that renews the access token, or `NotAuthenticated` while
    /// no refresh token is held.
    pub fn refresh_request(&self) -> (request: Result<Request, ApiError>)
        ensures
            match request {
                Ok(r) => self@.refresh_token is Some && r@ == token_request(self@.refresh_form()),
                Err(e) => self@.refresh_token is None && e == ApiError::NotAuthenticated,
            },
    {
        if self.has_refresh_token() {
            Ok(self.refresh_access_token())
        } else {
            Err(ApiError::NotAuthenticated)
        }
    }

    /// The answer to a renewal: on success the new access token replaces the
    /// old one, and the refresh token is replaced only if a new one came. A
    /// renewal that failed leaves both tokens as they were.
    pub fn token_refreshed(&mut self, status: u16, tokens: Option<TokenPair>) -> (r: Result<(), ApiError>)
        ensures
            match r {
                Ok(_) => is_success_status(status) && tokens is Some && final(self)@ == old(
                    self,
                )@.with_tokens(tokens->0.access_token@, text_of(tokens->0.refresh_token)),
                Err(e) => !(is_success_status(status) && tokens is Some) && e
                    == (ApiError::AuthExchangeFailed { status }) && *final(self) == *old(self),
            },
            old(self)@.access_token is Some ==> final(self)@.access_token is Some,
            old(self)@.refresh_token is Some ==> final(self)@.refresh_token is Some,
    {
        self.token_received(status, tokens)
    }

    fn authorized(&self, method: Method, url: String) -> (request: Result<Request, ApiError>)
        ensures
            match request {
                Ok(r) => self@.access_token is Some && r@ == self@.authorized(method, url@),
                Err(e) => self@.access_token is None && e == ApiError::NotAuthenticated,
            },
    {
        match &self.access_token {
            Some(token) => {
                let query: Vec<(String, String)> = Vec::new();
                assert(params_text(query@) =~= Seq::empty());
                Ok(Request { method, url, bearer: Some(token.clone()), query, body: Body::Absent })
            },
            None => Err(ApiError::NotAuthenticated),
        }
    }

    /// The request for the user's playlists.
    pub fn get_playlists(&self) -> (request: Result<Request, ApiError>)
        ensures
            match request {
                Ok(r) => self@.access_token is Some && r@ == self@.authorized(
                    Method::Get,
                    "https://api.spotify.com/v1/me/playlists"@,
                ),
                Err(e) => self@.access_token is None && e == ApiError::NotAuthenticated,
            },
    {
        self.authorized(Method::Get, "https://api.spotify.com/v1/me/playlists".to_owned())
    }

    /// The request for the tracks of a playlist, or of the saved tracks.
    pub fn get_playlist_tracks(&self, playlist_id: &str) -> (request: Result<Request, ApiError>)
        ensures
            match request {
                Ok(r) => self@.access_token is Some && r@ == self@.authorized(
                    Method::Get,
                    playlist_tracks_url(playlist_id@),
                ),
                Err(e) => self@.access_token is None && e == ApiError::NotAuthenticated,
            },
    {
        let url = if same_text(playlist_id, LIKED_ID) {
            "https://api.spotify.com/v1/me/tracks?limit=50".to_owned()
        } else {
            let mut url = joined("https://api.spotify.com/v1/playlists/", playlist_id);
            url.push_str("/tracks");
            url
        };
        self.authorized(Method::Get, url)
    }

    /// The request that searches tracks for `query`, fifty at most.
    pub fn search_tracks(&self, query: &str) -> (request: Result<Request, ApiError>)
        ensures
            match request {
                Ok(r) => self@.access_token is Some && r@ == (RequestView {
                    query: seq![("q"@, query@), ("type"@, "track"@), ("limit"@, "50"@)],
                    ..self@.authorized(Method::Get, "https://api.spotify.com/v1/search"@)
                }),
                Err(e) => self@.access_token is None && e == ApiError::NotAuthenticated,
            },
    {
        match self.authorized(Method::Get, "https://api.spotify.com/v1/search".to_owned()) {
            Ok(mut request) => {
                let mut params: Vec<(String, String)> = Vec::new();
                params.push(param("q", query));
                params.push(param("type", "track"));
                params.push(param("limit", "50"));
                assert(params_text(params@) =~= seq![
                    ("q"@, query@),
                    ("type"@, "track"@),
                    ("limit"@, "50"@),
                ]);
                request.query = params;
                Ok(request)
            },
            Err(e) => Err(e),
        }
    }

    /// The request for the devices that can play.
    pub fn get_available_devices(&self) -> (request: Result<Request, ApiError>)
        ensures
            match request {
                Ok(r) => self@.access_token is Some && r@ == self@.authorized(
                    Method::Get,
                    "https://api.spotify.com/v1/me/player/devices"@,
                ),
                Err(e) => self@.access_token is None && e == ApiError::NotAuthenticated,
            },
    {
        self.authorized(Method::Get, "https://api.spotify.com/v1/me/player/devices".to_owned())
    }

    /// The request that plays the track `track_uri`, given the devices the
    /// service listed. Without a device there is nothing to send.
    pub fn play_track(&self, track_uri: &str, devices: &Vec<Device>) -> (request: Result<Request, ApiError>)
        ensures
            match request {
                Ok(r) => self@.access_token is Some && devices@.len() > 0 && r@ == (RequestView {
                    body: BodyView::Uris(seq![track_uri@]),
                    ..self@.authorized(Method::Put, "https://api.spotify.com/v1/me/player/play"@)
                }),
                Err(e) => if self@.access_token is None {
                    e == ApiError::NotAuthenticated
                } else {
                    devices@.len() == 0 && e == ApiError::NoDevices
                },
            },
    {
        match self.authorized(Method::Put, "https://api.spotify.com/v1/me/player/play".to_owned()) {
            Ok(mut request) => {
                if devices.len() == 0 {
                    return Err(ApiError::NoDevices);
                }
                let mut uris: Vec<String> = Vec::new();
                uris.push(track_uri.to_owned());
                assert(texts(uris@) =~= seq![track_uri@]);
                request.body = Body::Uris(uris);
                Ok(request)
            },
            Err(e) => Err(e),
        }
    }

    /// The request for what is playing.
    pub fn get_currently_playing(&self) -> (request: Result<Request, ApiError>)
        ensures
            match request {
                Ok(r) => self@.access_token is Some && r@ == self@.authorized(
                    Method::Get,
                    "https://api.spotify.com/v1/me/player/currently-playing"@,
                ),
                Err(e) => self@.access_token is None && e == ApiError::NotAuthenticated,
            },
    {
        self.authorized(
            Method::Get,
            "https://api.spotify.com/v1/me/player/currently-playing".to_owned(),
        )
    }

    /// The request for the play queue.
    pub fn get_queue(&self) -> (request: Result<Request, ApiError>)
        ensures
            match request {
                Ok(r) => self@.access_token is Some && r@ == self@.authorized(
                    Method::Get,
                    "https://api.spotify.com/v1/me/player/queue"@,
                ),
                Err(e) => self@.access_token is None && e == ApiError::NotAuthenticated,
            },
    {
        self.authorized(Method::Get, "https://api.spotify.com/v1/me/player/queue".to_owned())
    }

    /// The request that appends the track `track_uri` to the play queue.
    pub fn add_to_queue(&self, track_uri: &str) -> (request: Result<Request, ApiError>)
        ensures
            match request {
                Ok(r) => self@.access_token is Some && r@ == (RequestView {
                    query: seq![("uri"@, track_uri@)],
                    body: BodyView::Empty,
                    ..self@.authorized(Method::Post, "https://api.spotify.com/v1/me/player/queue"@)
                }),
                Err(e) => self@.access_token is None && e == ApiError::NotAuthenticated,
            },
    {
        match self.authorized(Method::Post, "https://api.spotify.com/v1/me/player/queue".to_owned()) {
            Ok(mut request) => {
                let mut params: Vec<(String, String)> = Vec::new();
                params.push(param("uri", track_uri));
                assert(params_text(params@) =~= seq![("uri"@, track_uri@)]);
                request.query = params;
                request.body = Body::Empty;
                Ok(request)
            },
            Err(e) => Err(e),
        }
    }

    fn command(&self, method: Method, url: String) -> (request: Result<Request, ApiError>)
        ensures
            match request {
                Ok(r) => self@.access_token is Some && r@ == (RequestView {
                    body: BodyView::Empty,
                    ..self@.authorized(method, url@)
                }),
                Err(e) => self@.access_token is None && e == ApiError::NotAuthenticated,
            },
    {
        match self.authorized(method, url) {
            Ok(mut request) => {
                request.body = Body::Empty;
                Ok(request)
            },
            Err(e) => Err(e),
        }
    }

    /// The request that pauses playback.
    pub fn pause_playback(&self) -> (request: Result<Request, ApiError>)
        ensures
            match request {
                Ok(r) => self@.access_token is Some && r@ == (RequestView {
                    body: BodyView::Empty,
                    ..self@.authorized(Method::Put, "https://api.spotify.com/v1/me/player/pause"@)
                }),
                Err(e) => self@.access_token is None && e == ApiError::NotAuthenticated,
            },
    {
        self.command(Method::Put, "https://api.spotify.com/v1/me/player/pause".to_owned())
    }

    /// The request that resumes playback.
    pub fn resume_playback(&self) -> (request: Result<Request, ApiError>)
        ensures
            match request {
                Ok(r) => self@.access_token is Some && r@ == (RequestView {
                    body: BodyView::Empty,
                    ..self@.authorized(Method::Put, "https://api.spotify.com/v1/me/player/play"@)
                }),
                Err(e) => self@.access_token is None && e == ApiError::NotAuthenticated,
            },
    {
        self.command(Method::Put, "https://api.spotify.com/v1/me/player/play".to_owned())
    }

    /// The request that skips to the next track.
    pub fn next_track(&self) -> (request: Result<Request, ApiError>)
        ensures
            match request {
                Ok(r) => self@.access_token is Some && r@ == (RequestView {
                    body: BodyView::Empty,
                    ..self@.authorized(Method::Post, "https://api.spotify.com/v1/me/player/next"@)
                }),
                Err(e) => self@.access_token is None && e == ApiError::NotAuthenticated,
            },
    {
        self.command(Method::Post, "https://api.spotify.com/v1/me/player/next".to_owned())
    }

    /// The request that skips to the previous track.
    pub fn previous_track(&self) -> (request: Result<Request, ApiError>)
        ensures
            match request {
                Ok(r) => self@.access_token is Some && r@ == (RequestView {
                    body: BodyView::Empty,
                    ..self@.authorized(
                        Method::Post,
                        "https://api.spotify.com/v1/me/player/previous"@,
                    )
                }),
                Err(e) => self@.access_token is None && e == ApiError::NotAuthenticated,
            },
    {
        self.command(Method::Post, "https://api.spotify.com/v1/me/player/previous".to_owned())
    }
}

/// The playlists to show, from the answer to the request for them: the
/// saved tracks as a first entry, then the playlists the service listed. An
/// answer without success or of some other shape is an error.
pub fn playlists_received(status: u16, listed: Option<Vec<Playlist>>) -> (r: Result<Vec<Playlist>, ApiError>)
    ensures
        match r {
            Ok(playlists) => is_success_status(status) && listed is Some && playlists@.len()
                == listed->0@.len() + 1 && is_liked_songs(playlists@[0]) && playlists@.skip(1)
                == listed->0@,
            Err(e) => if !is_success_status(status) {
                e == (ApiError::RemoteCallFailed { operation: Operation::LoadPlaylists, status })
            } else {
                listed is None && e == ApiError::MalformedResponse
            },
        },
{
    if !is_success(status) {
        return Err(ApiError::RemoteCallFailed { operation: Operation::LoadPlaylists, status });
    }
    match listed {
        Some(mut playlists) => {
            let ghost before = playlists@;
            let liked = Playlist {
                id: LIKED_ID.to_owned(),
                name: "Liked Songs".to_owned(),
                description: None,
                tracks: PlaylistTracks { total: 50 },
            };
            playlists.insert(0, liked);
            assert(playlists@.skip(1) =~= before);
            Ok(playlists)
        },
        None => Err(ApiError::MalformedResponse),
    }
}

/// The tracks from the answer to `operation`, which asked for the tracks of
/// a playlist or for a search. An answer without success or of some other
/// shape is an error.
pub fn tracks_received(operation: Operation, status: u16, listed: Option<Vec<Track>>) -> (r: Result<Vec<Track>, ApiError>)
    ensures
        match r {
            Ok(tracks) => is_success_status(status) && listed == Some(tracks),
            Err(e) => if !is_success_status(status) {
                e == (ApiError::RemoteCallFailed { operation, status })
            } else {
                listed is None && e == ApiError::MalformedResponse
            },
        },
{
    if !is_success(status) {
        return Err(ApiError::RemoteCallFailed { operation, status });
    }
    match listed {
        Some(tracks) => Ok(tracks),
        None => Err(ApiError::MalformedResponse),
    }
}

/// The devices from the answer to the request for them. An answer without
/// success counts as no device; one with success and some other shape is an
/// error.
pub fn devices_received(status: u16, listed: Option<Vec<Device>>) -> (r: Result<Vec<Device>, ApiError>)
    ensures
        match r {
            Ok(devices) => if is_success_status(status) {
                listed == Some(devices)
            } else {
                devices@.len() == 0
            },
            Err(e) => is_success_status(status) && listed is None && e
                == ApiError::MalformedResponse,
        },
{
    if !is_success(status) {
        return Ok(Vec::new());
    }
    match listed {
        Some(devices) => Ok(devices),
        None => Err(ApiError::MalformedResponse),
    }
}

/// What is playing, from the answer to the request for it. Nothing is
/// playing when the answer is without success or has an empty body; a body
/// of some other shape is an error.
pub fn currently_playing_received(
    status: u16,
    body_is_empty: bool,
    parsed: Option<CurrentlyPlaying>,
) -> (r: Result<Option<CurrentlyPlaying>, ApiError>)
    ensures
        match r {
            Ok(playing) => if is_success_status(status) && !body_is_empty {
                parsed is Some && playing == parsed
            } else {
                playing is None
            },
            Err(e) => is_success_status(status) && !body_is_empty && parsed is None && e
                == ApiError::MalformedResponse,
        },
{
    if !is_success(status) || body_is_empty {
        return Ok(None);
    }
    match parsed {
        Some(playing) => Ok(Some(playing)),
        None => Err(ApiError::MalformedResponse),
    }
}

/// The play queue, from the answer to the request for it. Nothing is known
/// of the queue when the answer is without success; a body of some other
/// shape is an error.
pub fn queue_received(status: u16, parsed: Option<Queue>) -> (r: Result<Option<Queue>, ApiError>)
    ensures
        match r {
            Ok(queue) => if is_success_status(status) {
                parsed is Some && queue == parsed
            } else {
                queue is None
            },
            Err(e) => is_success_status(status) && parsed is None && e
                == ApiError::MalformedResponse,
        },
{
    if !is_success(status) {
        return Ok(None);
    }
    match parsed {
        Some(queue) => Ok(Some(queue)),
        None => Err(ApiError::MalformedResponse),
    }
}

} // verus!
