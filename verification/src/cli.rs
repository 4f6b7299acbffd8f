//! The commands of the program.

use vstd::prelude::*;
use crate::playlist::Playlist;

verus! {

/// What the program was started to do.
#[derive(Clone, Copy, Debug, PartialEq, Eq, Structural)]
pub struct Cli {
    /// The command given on the command line.
    pub command: Command,
}

/// A command of the program.
#[derive(Clone, Copy, Debug, PartialEq, Eq, Structural)]
pub enum Command {
    /// Authenticate the user; `cli_login` asks for the flow without a browser.
    Auth { cli_login: bool },
    /// Generate the daily playlist.
    Generate,
    /// List the playlists a track can be switched to.
    ListPlaylists,
    /// Switch the playing track to `destination`; `remove` takes it out of
    /// the fresh vibrations.
    SwitchTrack { destination: Option<Playlist>, remove: bool },
    /// Show the status of the playing track; `daemon` runs the daemon that
    /// computes it.
    TrackInfo { daemon: bool },
}

impl Command {
    /// Whether the command talks to the streaming service, and so needs an
    /// API client before it starts: every command but authenticating,
    /// listing the playlists, and asking the daemon for the status.
    pub open spec fn spec_needs_client(self) -> bool {
        match self {
            Command::Auth { .. } => false,
            Command::ListPlaylists => false,
            Command::TrackInfo { daemon } => daemon,
            Command::Generate => true,
            Command::SwitchTrack { .. } => true,
        }
    }

    /// Tells whether the command needs an API client before it starts.
    pub fn needs_client(&self) -> (needed: bool)
        ensures
            needed == self.spec_needs_client(),
    {
        match self {
            Command::Auth { .. } => false,
            Command::ListPlaylists => false,
            Command::TrackInfo { daemon } => *daemon,
            Command::Generate => true,
            Command::SwitchTrack { .. } => true,
        }
    }
}

} // verus!
