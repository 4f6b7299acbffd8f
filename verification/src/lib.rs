//! Decision logic of a now-playing daemon for a music-streaming account:
//! the curated playlists, the track-list cache, the status line, the control
//! protocol, the event loop and the retrying client acquisition.

pub mod auth;
pub mod cache;
pub mod cli;
pub mod daemon;
pub mod error;
pub mod fetch;
pub mod generate;
pub mod ipc;
pub mod playlist;
pub mod spotify;
pub mod switch_track;
pub mod text;
pub mod track_info;
pub mod track_lists;
