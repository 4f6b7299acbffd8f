//! The failures this library reports.

use vstd::prelude::*;
use vstd::string::*;

verus! {

/// Everything that can go wrong in the library's own decisions.
#[derive(Clone, Copy, Debug, PartialEq, Eq, Structural)]
pub enum Error {
    /// The client holds no refresh token to persist.
    NoRefreshToken,
    /// Nothing is playing, or what plays is no track.
    NoTrackPlaying,
    /// The redirect of the authentication flow could not be understood.
    ParseAuthResponse,
    /// A list that the operation needs is absent from the track lists.
    PlaylistNotFetched,
    /// Every attempt of a retrying acquisition failed.
    TooManyRetries,
    /// The single attempt of a non-retrying acquisition failed.
    AuthenticationFailed,
    /// A cache file is absent or cannot be decoded.
    CacheUnavailable,
    /// A value could not be prepared for, or written to, the cache.
    PersistenceFailed,
    /// The control socket could not be bound.
    SocketBindFailed,
}

impl Error {
    /// The text shown to the user for this error.
    pub open spec fn spec_message(self) -> Seq<char> {
        match self {
            Error::NoRefreshToken => "No refresh token found"@,
            Error::NoTrackPlaying => "No track playing"@,
            Error::ParseAuthResponse => "Error parsing spotify authentication response"@,
            Error::PlaylistNotFetched => "Playlist not fetched"@,
            Error::TooManyRetries => "Could not connect to spotify API aftre too many attempts"@,
            Error::AuthenticationFailed => "Could not authenticate with the cached refresh token"@,
            Error::CacheUnavailable => "Cache file missing or malformed"@,
            Error::PersistenceFailed => "Could not write to the cache"@,
            Error::SocketBindFailed => "Could not bind the control socket"@,
        }
    }

    /// Returns the text shown to the user for this error.
    pub fn message(&self) -> (text: String)
        ensures
            text@ == self.spec_message(),
    {
        let text: &str = match self {
            Error::NoRefreshToken => "No refresh token found",
            Error::NoTrackPlaying => "No track playing",
            Error::ParseAuthResponse => "Error parsing spotify authentication response",
            Error::PlaylistNotFetched => "Playlist not fetched",
            Error::TooManyRetries => "Could not connect to spotify API aftre too many attempts",
            Error::AuthenticationFailed => "Could not authenticate with the cached refresh token",
            Error::CacheUnavailable => "Cache file missing or malformed",
            Error::PersistenceFailed => "Could not write to the cache",
            Error::SocketBindFailed => "Could not bind the control socket",
        };
        String::from_str(text)
    }
}

} // verus!
