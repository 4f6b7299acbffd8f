use spotify_manager::error::Error;
use spotify_manager::fetch::{
    collect_track_lists, get_track_lists, FetchMode, FetchPlan, TrackListFetch,
};
use spotify_manager::playlist::Playlist;
use spotify_manager::switch_track::{to_playlist, SwitchOp};
use spotify_manager::track_info::Track;
use spotify_manager::track_lists::TrackLists;

fn strings(items: &[&str]) -> Vec<String> {
    items.iter().map(|s| s.to_string()).collect()
}

fn cache() -> TrackLists {
    let mut lists = TrackLists::new();
    lists.insert(Playlist::NerveRacking, strings(&["n"]));
    lists
}

fn some_track() -> Track {
    Track {
        id: "1abc".to_string(),
        uri: "spotify:track:1abc".to_string(),
        name: "Song".to_string(),
        artists: strings(&["Ann"]),
    }
}

#[test]
fn every_list_is_fetched_and_not_written() {
    let plan = FetchPlan::Fetch { lists: Playlist::all(), persist: false };
    assert_eq!(get_track_lists(FetchMode::All, None), plan);
    assert_eq!(get_track_lists(FetchMode::All, Some(cache())), plan);
}

#[test]
fn the_working_lists_are_fetched_and_written() {
    let plan = FetchPlan::Fetch {
        lists: vec![Playlist::CurrentLoop, Playlist::FreshVibrations],
        persist: true,
    };
    assert_eq!(get_track_lists(FetchMode::Limited, None), plan);
    assert_eq!(get_track_lists(FetchMode::Limited, Some(cache())), plan);
}

#[test]
fn the_cache_is_used_where_it_is_there() {
    assert_eq!(
        get_track_lists(FetchMode::Cache, Some(cache())),
        FetchPlan::Cached { track_lists: cache() }
    );
    assert_eq!(
        get_track_lists(FetchMode::Cache, Some(TrackLists::new())),
        FetchPlan::Cached { track_lists: TrackLists::new() }
    );
    assert_eq!(
        get_track_lists(FetchMode::Cache, None),
        FetchPlan::Fetch {
            lists: vec![Playlist::CurrentLoop, Playlist::FreshVibrations],
            persist: true,
        }
    );
}

#[test]
fn track_lists_are_collected_where_every_fetch_succeeded() {
    let mut expected = TrackLists::new();
    expected.insert(Playlist::CurrentLoop, strings(&["a"]));
    expected.insert(Playlist::FreshVibrations, Vec::new());
    assert_eq!(
        collect_track_lists(vec![
            (Playlist::CurrentLoop, Some(strings(&["a"]))),
            (Playlist::FreshVibrations, Some(Vec::new())),
        ]),
        Some(expected)
    );
    assert_eq!(collect_track_lists(Vec::new()), Some(TrackLists::new()));
    assert_eq!(
        collect_track_lists(vec![
            (Playlist::CurrentLoop, Some(strings(&["a"]))),
            (Playlist::FreshVibrations, None),
        ]),
        None
    );
}

#[test]
fn a_list_of_one_page_is_fetched_at_offset_zero() {
    let mut fetch = TrackListFetch::new(Playlist::IntoTheAbyss);
    assert_eq!(fetch.playlist(), Playlist::IntoTheAbyss);
    assert_eq!(fetch.next_offset(), Some(0));
    fetch.page(vec![Some("a".to_string()), None, Some("b".to_string())], false);
    assert_eq!(fetch.next_offset(), None);
    assert_eq!(fetch.finish(), (Playlist::IntoTheAbyss, Some(strings(&["a", "b"]))));
}

#[test]
fn pages_follow_each_other_a_chunk_apart() {
    let mut fetch = TrackListFetch::new(Playlist::DailyPlaylist);
    let mut offsets = Vec::new();
    let mut expected = Vec::new();
    for page in 0..5u32 {
        offsets.push(fetch.next_offset().unwrap());
        let items: Vec<Option<String>> = (0..100)
            .map(|i| if i % 10 == 9 { None } else { Some(format!("track-{page}-{i}")) })
            .collect();
        expected.extend(items.iter().flatten().cloned());
        fetch.page(items, page < 4);
    }
    assert_eq!(offsets, vec![0, 100, 200, 300, 400]);
    assert_eq!(fetch.next_offset(), None);
    assert_eq!(expected.len(), 450);
    assert_eq!(fetch.finish(), (Playlist::DailyPlaylist, Some(expected)));
}

#[test]
fn an_empty_list_is_fetched_as_empty() {
    let mut fetch = TrackListFetch::new(Playlist::CurrentLoop);
    fetch.page(Vec::new(), false);
    assert_eq!(fetch.finish(), (Playlist::CurrentLoop, Some(Vec::new())));
}

#[test]
fn a_page_that_cannot_be_had_fails_the_fetch() {
    let mut fetch = TrackListFetch::new(Playlist::CurrentLoop);
    fetch.page(vec![Some("a".to_string())], true);
    assert_eq!(fetch.next_offset(), Some(100));
    fetch.page_failed();
    assert_eq!(fetch.next_offset(), None);
    fetch.page(vec![Some("b".to_string())], false);
    assert_eq!(fetch.finish(), (Playlist::CurrentLoop, None));
}

#[test]
fn a_fetch_that_is_not_through_has_no_outcome() {
    let fetch = TrackListFetch::new(Playlist::CurrentLoop);
    assert_eq!(fetch.finish(), (Playlist::CurrentLoop, None));
    let mut fetch = TrackListFetch::new(Playlist::CurrentLoop);
    fetch.page(vec![Some("a".to_string())], true);
    assert_eq!(fetch.finish(), (Playlist::CurrentLoop, None));
}

#[test]
fn pages_after_the_last_are_ignored() {
    let mut fetch = TrackListFetch::new(Playlist::CurrentLoop);
    fetch.page(vec![Some("a".to_string())], false);
    fetch.page(vec![Some("b".to_string())], true);
    fetch.page_failed();
    assert_eq!(fetch.finish(), (Playlist::CurrentLoop, Some(strings(&["a"]))));
}

#[test]
fn switching_needs_a_playing_track() {
    assert_eq!(to_playlist(None, Some(Playlist::NerveRacking), true), Err(Error::NoTrackPlaying));
    assert_eq!(to_playlist(None, None, false), Err(Error::NoTrackPlaying));
}

#[test]
fn a_switch_without_destination_or_removal_does_nothing() {
    assert_eq!(to_playlist(Some(&some_track()), None, false), Ok(Vec::new()));
}

#[test]
fn a_removal_takes_the_track_out_of_the_fresh_vibrations() {
    assert_eq!(
        to_playlist(Some(&some_track()), None, true),
        Ok(vec![
            SwitchOp::RemoveFrom { playlist: Playlist::FreshVibrations },
            SwitchOp::SignalRefresh,
        ])
    );
}

#[test]
fn a_move_saves_adds_and_clears_the_working_lists() {
    assert_eq!(
        to_playlist(Some(&some_track()), Some(Playlist::DeepSpaceWubs), false),
        Ok(vec![
            SwitchOp::SaveTrack,
            SwitchOp::AddTo { playlist: Playlist::DeepSpaceWubs },
            SwitchOp::RemoveFrom { playlist: Playlist::CurrentLoop },
            SwitchOp::RemoveFrom { playlist: Playlist::FreshVibrations },
            SwitchOp::SignalRefresh,
        ])
    );
}

#[test]
fn a_move_to_the_current_loop_leaves_it_there() {
    assert_eq!(
        to_playlist(Some(&some_track()), Some(Playlist::CurrentLoop), false),
        Ok(vec![
            SwitchOp::SaveTrack,
            SwitchOp::AddTo { playlist: Playlist::CurrentLoop },
            SwitchOp::RemoveFrom { playlist: Playlist::FreshVibrations },
            SwitchOp::SignalRefresh,
        ])
    );
}

#[test]
fn a_removal_comes_before_the_move() {
    assert_eq!(
        to_playlist(Some(&some_track()), Some(Playlist::FreshVibrations), true),
        Ok(vec![
            SwitchOp::RemoveFrom { playlist: Playlist::FreshVibrations },
            SwitchOp::SignalRefresh,
            SwitchOp::SaveTrack,
            SwitchOp::AddTo { playlist: Playlist::FreshVibrations },
            SwitchOp::RemoveFrom { playlist: Playlist::CurrentLoop },
            SwitchOp::RemoveFrom { playlist: Playlist::FreshVibrations },
            SwitchOp::SignalRefresh,
        ])
    );
}
