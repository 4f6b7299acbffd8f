use spotify_manager::cli::Command;
use spotify_manager::error::Error;
use spotify_manager::playlist::{Playlist, PLAYLIST_COUNT};

#[test]
fn every_playlist_has_its_identifier() {
    assert_eq!(Playlist::CurrentLoop.id(), "77JTZoDLsmXm1ODTdVc1oz");
    assert_eq!(Playlist::FreshVibrations.id(), "7tmG3W0fLJw9eDEaRCG8VY");
    assert_eq!(Playlist::IntoTheAbyss.id(), "0oc9wsvrxgwI17PCfbEo1l");
    assert_eq!(Playlist::FlowingAtmosphere.id(), "4Ty1f3XV2rOPrNOOBMPldQ");
    assert_eq!(Playlist::NerveRacking.id(), "1THuBLaWoC0E8PNo2MsFka");
    assert_eq!(Playlist::DeepSpaceWubs.id(), "5bQBn71eqqtVqTPsB0XlFf");
    assert_eq!(Playlist::DailyPlaylist.id(), "42O1aSlfF0vlmLuBkPlcDO");
}

#[test]
fn identifiers_are_distinct() {
    let all = Playlist::all();
    for (i, a) in all.iter().enumerate() {
        for b in all.iter().skip(i + 1) {
            assert_ne!(a.id(), b.id());
        }
    }
}

#[test]
fn all_lists_every_playlist_in_order() {
    let all = Playlist::all();
    assert_eq!(
        all,
        vec![
            Playlist::CurrentLoop,
            Playlist::FreshVibrations,
            Playlist::IntoTheAbyss,
            Playlist::FlowingAtmosphere,
            Playlist::NerveRacking,
            Playlist::DeepSpaceWubs,
            Playlist::DailyPlaylist,
        ]
    );
    assert_eq!(all.len(), PLAYLIST_COUNT);
    for (i, playlist) in all.iter().enumerate() {
        assert_eq!(playlist.index(), i);
    }
}

#[test]
fn the_order_of_the_variants_is_the_order_of_the_indices() {
    let all = Playlist::all();
    for a in all.iter() {
        for b in all.iter() {
            assert_eq!(a < b, a.index() < b.index());
        }
    }
}

#[test]
fn working_lists_are_the_loop_and_the_fresh_vibrations() {
    assert_eq!(Playlist::working(), vec![Playlist::CurrentLoop, Playlist::FreshVibrations]);
}

#[test]
fn switchable_playlists_are_named_as_on_the_command_line() {
    let names: Vec<String> = Playlist::switchable().iter().map(|p| p.name()).collect();
    assert_eq!(
        names,
        vec![
            "current-loop",
            "into-the-abyss",
            "flowing-atmosphere",
            "nerve-racking",
            "deep-space-wubs",
        ]
    );
    assert_eq!(Playlist::FreshVibrations.name(), "fresh-vibrations");
    assert_eq!(Playlist::DailyPlaylist.name(), "daily-playlist");
}

#[test]
fn commands_that_talk_to_the_service_need_a_client() {
    assert!(!Command::Auth { cli_login: false }.needs_client());
    assert!(!Command::Auth { cli_login: true }.needs_client());
    assert!(!Command::ListPlaylists.needs_client());
    assert!(!Command::TrackInfo { daemon: false }.needs_client());
    assert!(Command::TrackInfo { daemon: true }.needs_client());
    assert!(Command::Generate.needs_client());
    assert!(Command::SwitchTrack { destination: None, remove: true }.needs_client());
    assert!(Command::SwitchTrack { destination: Some(Playlist::NerveRacking), remove: false }
        .needs_client());
}

#[test]
fn every_error_has_its_message() {
    assert_eq!(Error::NoRefreshToken.message(), "No refresh token found");
    assert_eq!(Error::NoTrackPlaying.message(), "No track playing");
    assert_eq!(
        Error::ParseAuthResponse.message(),
        "Error parsing spotify authentication response"
    );
    assert_eq!(Error::PlaylistNotFetched.message(), "Playlist not fetched");
    assert_eq!(
        Error::TooManyRetries.message(),
        "Could not connect to spotify API aftre too many attempts"
    );
    let all = [
        Error::NoRefreshToken,
        Error::NoTrackPlaying,
        Error::ParseAuthResponse,
        Error::PlaylistNotFetched,
        Error::TooManyRetries,
        Error::AuthenticationFailed,
        Error::CacheUnavailable,
        Error::PersistenceFailed,
        Error::SocketBindFailed,
    ];
    for (i, a) in all.iter().enumerate() {
        assert!(!a.message().is_empty());
        for b in all.iter().skip(i + 1) {
            assert_ne!(a.message(), b.message());
        }
    }
}
