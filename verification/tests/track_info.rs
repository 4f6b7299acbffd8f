use spotify_manager::error::Error;
use spotify_manager::playlist::Playlist;
use spotify_manager::track_info::{
    fetch_track_info, join, playlist_status, update_track_info, Track,
};
use spotify_manager::track_lists::TrackLists;

fn strings(items: &[&str]) -> Vec<String> {
    items.iter().map(|s| s.to_string()).collect()
}

fn cache() -> TrackLists {
    let mut lists = TrackLists::new();
    lists.insert(Playlist::CurrentLoop, strings(&["trackA", "trackB"]));
    lists.insert(Playlist::FreshVibrations, strings(&["trackC"]));
    lists
}

fn track(uri: &str, name: &str, artists: &[&str]) -> Track {
    Track {
        id: uri.to_string(),
        uri: uri.to_string(),
        name: name.to_string(),
        artists: strings(artists),
    }
}

#[test]
fn a_track_of_the_current_loop_is_marked_c() {
    assert_eq!(playlist_status(&cache(), &"trackB".to_string()), Ok("C".to_string()));
    assert_eq!(playlist_status(&cache(), &"trackA".to_string()), Ok("C".to_string()));
}

#[test]
fn a_track_of_the_fresh_vibrations_is_marked_f() {
    assert_eq!(playlist_status(&cache(), &"trackC".to_string()), Ok("F".to_string()));
}

#[test]
fn a_track_of_both_lists_is_marked_cf() {
    let mut lists = cache();
    lists.insert(Playlist::FreshVibrations, strings(&["trackC", "trackA"]));
    assert_eq!(playlist_status(&lists, &"trackA".to_string()), Ok("CF".to_string()));
}

#[test]
fn a_track_of_neither_list_has_no_mark() {
    let mut lists = cache();
    lists.insert(Playlist::IntoTheAbyss, strings(&["trackD"]));
    assert_eq!(playlist_status(&lists, &"trackD".to_string()), Ok(String::new()));
}

#[test]
fn the_status_needs_both_working_lists() {
    let mut lists = cache();
    lists.remove(Playlist::FreshVibrations);
    assert_eq!(
        playlist_status(&lists, &"trackA".to_string()),
        Err(Error::PlaylistNotFetched)
    );
    let mut lists = cache();
    lists.remove(Playlist::CurrentLoop);
    assert_eq!(
        playlist_status(&lists, &"trackC".to_string()),
        Err(Error::PlaylistNotFetched)
    );
    assert_eq!(
        playlist_status(&TrackLists::new(), &"trackC".to_string()),
        Err(Error::PlaylistNotFetched)
    );
}

#[test]
fn join_puts_the_separator_between_neighbours() {
    assert_eq!(join(&Vec::new(), ", "), "");
    assert_eq!(join(&strings(&["one"]), ", "), "one");
    assert_eq!(join(&strings(&["one", "two"]), ", "), "one, two");
    assert_eq!(join(&strings(&["a", "", "c"]), "--"), "a----c");
    assert_eq!(join(&strings(&["a", "b"]), ""), "ab");
}

#[test]
fn the_status_line_names_artists_track_and_marks() {
    let playing = track("trackB", "Song", &["Ann", "Bob"]);
    assert_eq!(
        fetch_track_info(Some(&playing), &cache()),
        Ok("Ann, Bob - Song [C]".to_string())
    );
    let playing = track("trackC", "Other", &["Solo"]);
    assert_eq!(fetch_track_info(Some(&playing), &cache()), Ok("Solo - Other [F]".to_string()));
    let playing = track("trackZ", "", &[]);
    assert_eq!(fetch_track_info(Some(&playing), &cache()), Ok(" -  []".to_string()));
}

#[test]
fn the_status_line_goes_by_the_uri_of_the_track() {
    let mut playing = track("trackB", "Song", &["Ann"]);
    playing.id = "trackC".to_string();
    assert_eq!(fetch_track_info(Some(&playing), &cache()), Ok("Ann - Song [C]".to_string()));
}

#[test]
fn no_track_and_missing_lists_are_errors_of_the_status_line() {
    assert_eq!(fetch_track_info(None, &cache()), Err(Error::NoTrackPlaying));
    assert_eq!(fetch_track_info(None, &TrackLists::new()), Err(Error::NoTrackPlaying));
    let playing = track("trackB", "Song", &["Ann"]);
    assert_eq!(
        fetch_track_info(Some(&playing), &TrackLists::new()),
        Err(Error::PlaylistNotFetched)
    );
}

#[test]
fn the_shown_status_is_the_line_or_the_placeholder() {
    let mut shown = String::from("before");
    let playing = track("trackB", "Song", &["Ann", "Bob"]);
    update_track_info(Some(&playing), &cache(), &mut shown);
    assert_eq!(shown, "Ann, Bob - Song [C]");
    assert!(shown.contains('C') && !shown.contains('F'));
    let playing = track("trackC", "Song", &["Ann", "Bob"]);
    update_track_info(Some(&playing), &cache(), &mut shown);
    assert_eq!(shown, "Ann, Bob - Song [F]");
    update_track_info(None, &cache(), &mut shown);
    assert_eq!(shown, "-");
    update_track_info(Some(&playing), &TrackLists::new(), &mut shown);
    assert_eq!(shown, "-");
}
