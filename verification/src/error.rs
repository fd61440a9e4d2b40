//! The ways a remote operation can fail, and the text shown for each.

use vstd::prelude::*;
use crate::text::{decimal_text, joined, owned, push_decimal};

verus! {

/// A remote operation that reports failure by its HTTP status.
#[derive(Debug, Clone, Copy, PartialEq, Eq)]
pub enum Operation {
    LoadPlaylists,
    LoadPlaylistTracks,
    Search,
    PlayTrack,
    AddToQueue,
    PausePlayback,
    ResumePlayback,
    NextTrack,
    PreviousTrack,
}

/// Why an operation failed.
#[derive(Debug, Clone, PartialEq, Eq)]
pub enum ApiError {
    /// No access token is held yet.
    NotAuthenticated,
    /// The token endpoint answered with `status`, or with a body that holds no
    /// token.
    AuthExchangeFailed { status: u16 },
    /// No redirect carrying an authorization code arrived in time.
    AuthTimeout,
    /// The redirect address could not be bound.
    ListenerBindFailed,
    /// The service answered `operation` with a status outside `200 ..= 299`.
    RemoteCallFailed { operation: Operation, status: u16 },
    /// The service answered with a body of an unexpected shape.
    MalformedResponse,
    /// The account has no device to play on.
    NoDevices,
    /// The request never got an answer; the text says why.
    Network(String),
    /// The system browser could not be opened; the text says why.
    BrowserFailed(String),
}

/// Whether `status` lies in `200 ..= 299`.
pub open spec fn is_success_status(status: u16) -> bool {
    200 <= status < 300
}

impl Operation {
    /// Whether the operation drives the player, so that a 403 or 404 answer
    /// speaks of the account or of its devices.
    pub open spec fn is_player_command(self) -> bool {
        match self {
            Operation::LoadPlaylists | Operation::LoadPlaylistTracks | Operation::Search => false,
            _ => true,
        }
    }

    /// What failed, in the words of the message.
    pub open spec fn failure_text(self) -> Seq<char> {
        match self {
            Operation::LoadPlaylists => "Failed to load playlists: "@,
            Operation::LoadPlaylistTracks => "Failed to load tracks: "@,
            Operation::Search => "Failed to search: "@,
            Operation::PlayTrack => "Failed to play track: "@,
            Operation::AddToQueue => "Failed to add to queue: "@,
            Operation::PausePlayback => "Failed to pause playback: "@,
            Operation::ResumePlayback => "Failed to resume playback: "@,
            Operation::NextTrack => "Failed to skip to next track: "@,
            Operation::PreviousTrack => "Failed to skip to previous track: "@,
        }
    }

    /// The text for a failure of this operation with `status`.
    pub open spec fn status_text(self, status: u16) -> Seq<char> {
        if self.is_player_command() && status == 404 {
            "No active device found. Please start Spotify on your phone, computer, or web browser."@
        } else if self.is_player_command() && status == 403 {
            if self == Operation::AddToQueue {
                "Spotify Premium is required for queue control."@
            } else {
                "Spotify Premium is required for playback control."@
            }
        } else {
            self.failure_text() + decimal_text(status as nat)
        }
    }

    fn player_command(&self) -> (b: bool)
        ensures
            b == self.is_player_command(),
    {
        match self {
            Operation::LoadPlaylists | Operation::LoadPlaylistTracks | Operation::Search => false,
            _ => true,
        }
    }

    fn failure_prefix(&self) -> (s: &'static str)
        ensures
            s@ == self.failure_text(),
    {
        match self {
            Operation::LoadPlaylists => "Failed to load playlists: ",
            Operation::LoadPlaylistTracks => "Failed to load tracks: ",
            Operation::Search => "Failed to search: ",
            Operation::PlayTrack => "Failed to play track: ",
            Operation::AddToQueue => "Failed to add to queue: ",
            Operation::PausePlayback => "Failed to pause playback: ",
            Operation::ResumePlayback => "Failed to resume playback: ",
            Operation::NextTrack => "Failed to skip to next track: ",
            Operation::PreviousTrack => "Failed to skip to previous track: ",
        }
    }

    /// The result of this operation when the service answered with `status`
    /// and no body is of interest.
    pub fn outcome(self, status: u16) -> (r: Result<(), ApiError>)
        ensures
            is_success_status(status) ==> r is Ok,
            !is_success_status(status) ==> r == Err::<(), ApiError>(
                ApiError::RemoteCallFailed { operation: self, status },
            ),
    {
        if status >= 200 && status < 300 {
            Ok(())
        } else {
            Err(ApiError::RemoteCallFailed { operation: self, status })
        }
    }
}

/// Whether `status` lies in `200 ..= 299`.
pub fn is_success(status: u16) -> (b: bool)
    ensures
        b == is_success_status(status),
{
    status >= 200 && status < 300
}

impl ApiError {
    /// The text shown to the user for this error.
    pub open spec fn message_text(self) -> Seq<char> {
        match self {
            ApiError::NotAuthenticated => "Not authenticated"@,
            ApiError::AuthExchangeFailed { status } => if is_success_status(status) {
                "Token response held no access token"@
            } else {
                "Token exchange failed with status "@ + decimal_text(status as nat)
            },
            ApiError::AuthTimeout => "Authentication timed out - manual entry required"@,
            ApiError::ListenerBindFailed => "Could not listen on 127.0.0.1:8888 for the authorization redirect"@,
            ApiError::RemoteCallFailed { operation, status } => operation.status_text(status),
            ApiError::MalformedResponse => "Unexpected response from the music service"@,
            ApiError::NoDevices => "No active Spotify devices found. Please open Spotify on your phone, computer, or web browser."@,
            ApiError::Network(detail) => "Network failure: "@ + detail@,
            ApiError::BrowserFailed(detail) => "Could not open the browser: "@ + detail@,
        }
    }

    /// The text shown to the user for this error.
    pub fn message(&self) -> (text: String)
        ensures
            text@ == self.message_text(),
    {
        match self {
            ApiError::NotAuthenticated => owned("Not authenticated"),
            ApiError::AuthExchangeFailed { status } => {
                if is_success(*status) {
                    owned("Token response held no access token")
                } else {
                    let mut text = owned("Token exchange failed with status ");
                    push_decimal(&mut text, *status as u64);
                    text
                }
            },
            ApiError::AuthTimeout => owned("Authentication timed out - manual entry required"),
            ApiError::ListenerBindFailed => owned(
                "Could not listen on 127.0.0.1:8888 for the authorization redirect",
            ),
            ApiError::RemoteCallFailed { operation, status } => {
                if operation.player_command() && *status == 404 {
                    owned(
                        "No active device found. Please start Spotify on your phone, computer, or web browser.",
                    )
                } else if operation.player_command() && *status == 403 {
                    match operation {
                        Operation::AddToQueue => owned(
                            "Spotify Premium is required for queue control.",
                        ),
                        _ => owned("Spotify Premium is required for playback control."),
                    }
                } else {
                    let mut text = owned(operation.failure_prefix());
                    push_decimal(&mut text, *status as u64);
                    text
                }
            },
            ApiError::MalformedResponse => owned("Unexpected response from the music service"),
            ApiError::NoDevices => owned(
                "No active Spotify devices found. Please open Spotify on your phone, computer, or web browser.",
            ),
            ApiError::Network(detail) => joined("Network failure: ", detail.as_str()),
            ApiError::BrowserFailed(detail) => joined(
                "Could not open the browser: ",
                detail.as_str(),
            ),
        }
    }
}

} // verus!
