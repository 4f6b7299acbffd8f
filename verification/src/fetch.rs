//! Obtaining track lists: which lists to fetch in which mode, and how the
//! pages of one list are put together.
//!
//! The requests to the service are the caller's. [`get_track_lists`] says
//! what to fetch, [`TrackListFetch`] follows one list through its pages, and
//! [`collect_track_lists`] builds track lists from what was fetched.

use vstd::prelude::*;
use crate::playlist::Playlist;
use crate::spotify::CHUNK_SIZE;
use crate::text::texts;
use crate::track_lists::{
    fetched_view, fetched_views, spec_failed, spec_store_all, Contents, Fetched, Outcome,
    TrackLists,
};

verus! {

/// From where track lists are to be had.
#[derive(Clone, Copy, Debug, PartialEq, Eq, Structural)]
pub enum FetchMode {
    /// Every playlist, from the service.
    All,
    /// The two working lists, from the service.
    Limited,
    /// What the cache holds; the two working lists from the service where
    /// the cache is unavailable.
    Cache,
}

/// How track lists are to be had.
#[derive(Clone, Debug, PartialEq, Eq)]
pub enum FetchPlan {
    /// Use the track lists that the cache held.
    Cached { track_lists: TrackLists },
    /// Fetch `lists` from the service, in order; where `persist` holds, write
    /// the outcome to the cache.
    Fetch { lists: Vec<Playlist>, persist: bool },
}

/// Whether `plan` is the plan for `mode` when the cache held `cached`.
pub open spec fn spec_plans(plan: FetchPlan, mode: FetchMode, cached: Option<TrackLists>) -> bool {
    match mode {
        FetchMode::All => plan matches FetchPlan::Fetch { lists, persist } && lists@
            == Playlist::spec_all() && !persist,
        FetchMode::Limited => plan matches FetchPlan::Fetch { lists, persist } && lists@
            == Playlist::spec_working() && persist,
        FetchMode::Cache => match cached {
            Some(held) => plan matches FetchPlan::Cached { track_lists } && track_lists == held,
            None => plan matches FetchPlan::Fetch { lists, persist } && lists@
                == Playlist::spec_working() && persist,
        },
    }
}

/// Returns how track lists are to be had in `mode`, given the track lists
/// read from the cache, or nothing where the cache is unavailable. Only the
/// mode `Cache` uses what the cache held; an unavailable cache is no error,
/// it is made up for by fetching the working lists.
pub fn get_track_lists(mode: FetchMode, cached: Option<TrackLists>) -> (plan: FetchPlan)
    ensures
        spec_plans(plan, mode, cached),
{
    match mode {
        FetchMode::All => FetchPlan::Fetch { lists: Playlist::all(), persist: false },
        FetchMode::Limited => FetchPlan::Fetch { lists: Playlist::working(), persist: true },
        FetchMode::Cache => match cached {
            Some(track_lists) => FetchPlan::Cached { track_lists },
            None => FetchPlan::Fetch { lists: Playlist::working(), persist: true },
        },
    }
}

/// Returns the track lists that hold what was fetched, where every fetch
/// succeeded, and nothing where one failed.
pub fn collect_track_lists(fetched: Vec<Fetched>) -> (track_lists: Option<TrackLists>)
    ensures
        track_lists is Some <==> spec_failed(fetched_views(fetched@)).len() == 0,
        track_lists matches Some(lists) ==> lists@ == spec_store_all(
            Contents::empty(),
            fetched_views(fetched@),
        ),
{
    let mut lists = TrackLists::new();
    let failed = lists.store_all(fetched);
    if failed.len() == 0 {
        Some(lists)
    } else {
        None
    }
}

/// The items of a page that are tracks, in order: an item that is no track
/// is given as nothing.
pub open spec fn spec_tracks_of(items: Seq<Option<String>>) -> Seq<Seq<char>>
    decreases items.len(),
{
    if items.len() == 0 {
        Seq::empty()
    } else {
        match items.last() {
            Some(track) => spec_tracks_of(items.drop_last()).push(track@),
            None => spec_tracks_of(items.drop_last()),
        }
    }
}

/// How far the fetch of one list has got.
#[derive(Clone, Copy, Debug, PartialEq, Eq, Structural)]
pub enum FetchPhase {
    /// The page at the offset is wanted.
    Paging,
    /// The last page has been taken in.
    Complete,
    /// A page could not be had.
    Failed,
}

/// The fetch of one list, as contracts see it.
pub struct TrackListFetchState {
    /// The list that is fetched.
    pub playlist: Playlist,
    /// Where the next page starts.
    pub offset: u32,
    /// The tracks of the pages taken in so far.
    pub tracks: Seq<Seq<char>>,
    /// How far the fetch has got.
    pub phase: FetchPhase,
}

/// The state in which the fetch of `playlist` starts.
pub open spec fn spec_fetch_start(playlist: Playlist) -> TrackListFetchState {
    TrackListFetchState { playlist, offset: 0, tracks: Seq::empty(), phase: FetchPhase::Paging }
}

/// The state after the page that was wanted is taken in: its tracks follow
/// those of the pages before. Where no page follows, the fetch is complete;
/// otherwise the next page starts one chunk further on, and where no offset
/// can name that place, the fetch has failed. Where no page was wanted,
/// nothing changes.
pub open spec fn spec_page(
    state: TrackListFetchState,
    items: Seq<Option<String>>,
    has_next: bool,
) -> TrackListFetchState {
    if state.phase != FetchPhase::Paging {
        state
    } else if !has_next {
        TrackListFetchState {
            tracks: state.tracks + spec_tracks_of(items),
            phase: FetchPhase::Complete,
            ..state
        }
    } else if state.offset + CHUNK_SIZE > u32::MAX {
        TrackListFetchState {
            tracks: state.tracks + spec_tracks_of(items),
            phase: FetchPhase::Failed,
            ..state
        }
    } else {
        TrackListFetchState {
            tracks: state.tracks + spec_tracks_of(items),
            offset: (state.offset + CHUNK_SIZE) as u32,
            ..state
        }
    }
}

/// The state after the page that was wanted could not be had. Where no page
/// was wanted, nothing changes.
pub open spec fn spec_page_failed(state: TrackListFetchState) -> TrackListFetchState {
    if state.phase != FetchPhase::Paging {
        state
    } else {
        TrackListFetchState { phase: FetchPhase::Failed, ..state }
    }
}

/// The outcome of a fetch: the tracks where it is complete, nothing where
/// it is not.
pub open spec fn spec_outcome(state: TrackListFetchState) -> Outcome {
    (
        state.playlist,
        if state.phase == FetchPhase::Complete {
            Some(state.tracks)
        } else {
            None
        },
    )
}

/// The fetch of one list, page by page.
#[derive(Clone, Debug, PartialEq, Eq)]
pub struct TrackListFetch {
    playlist: Playlist,
    offset: u32,
    tracks: Vec<String>,
    phase: FetchPhase,
}

impl View for TrackListFetch {
    type V = TrackListFetchState;

    closed spec fn view(&self) -> TrackListFetchState {
        TrackListFetchState {
            playlist: self.playlist,
            offset: self.offset,
            tracks: texts(self.tracks@),
            phase: self.phase,
        }
    }
}

impl TrackListFetch {
    /// Starts the fetch of `playlist` at its first page.
    pub fn new(playlist: Playlist) -> (fetch: TrackListFetch)
        ensures
            fetch@ == spec_fetch_start(playlist),
    {
        let fetch = TrackListFetch {
            playlist,
            offset: 0,
            tracks: Vec::new(),
            phase: FetchPhase::Paging,
        };
        assert(fetch@.tracks =~= Seq::empty());
        fetch
    }

    /// Returns the list that is fetched.
    pub fn playlist(&self) -> (playlist: Playlist)
        ensures
            playlist == self@.playlist,
    {
        self.playlist
    }

    /// Returns the offset of the page that is wanted, or nothing where the
    /// fetch has ended.
    pub fn next_offset(&self) -> (offset: Option<u32>)
        ensures
            offset == if self@.phase == FetchPhase::Paging {
                Some(self@.offset)
            } else {
                None
            },
    {
        match self.phase {
            FetchPhase::Paging => Some(self.offset),
            _ => None,
        }
    }

    /// Takes in the page that was wanted: `items` holds its items in order,
    /// each track by its identifier and everything else as nothing, and
    /// `has_next` tells whether a page follows.
    pub fn page(&mut self, items: Vec<Option<String>>, has_next: bool)
        ensures
            final(self)@ == spec_page(old(self)@, items@, has_next),
    {
        if self.phase != FetchPhase::Paging {
            return;
        }
        let ghost before = texts(self.tracks@);
        for item in it: items
            invariant
                it.seq() == items@,
                texts(self.tracks@) == before + spec_tracks_of(items@.take(it.index() as int)),
                self.playlist == old(self).playlist,
                self.offset == old(self).offset,
                self.phase == old(self).phase,
        {
            proof {
                let n = it.index() as int;
                assert(items@.take(n + 1).drop_last() =~= items@.take(n));
                assert(items@.take(n + 1).last() == item);
            }
            let ghost so_far = texts(self.tracks@);
            match item {
                Some(track) => {
                    self.tracks.push(track);
                    assert(texts(self.tracks@) =~= so_far.push(track@));
                },
                None => {},
            }
        }
        assert(items@.take(items@.len() as int) =~= items@);
        if !has_next {
            self.phase = FetchPhase::Complete;
        } else if self.offset > u32::MAX - (CHUNK_SIZE as u32) {
            self.phase = FetchPhase::Failed;
        } else {
            self.offset = self.offset + (CHUNK_SIZE as u32);
        }
    }

    /// Takes in that the page that was wanted could not be had.
    pub fn page_failed(&mut self)
        ensures
            final(self)@ == spec_page_failed(old(self)@),
    {
        match self.phase {
            FetchPhase::Paging => {
                self.phase = FetchPhase::Failed;
            },
            _ => {},
        }
    }

    /// Ends the fetch and returns its outcome: the tracks of all pages, in
    /// order, where the last page has been taken in, and nothing otherwise.
    pub fn finish(self) -> (fetched: Fetched)
        ensures
            fetched_view(fetched) == spec_outcome(self@),
    {
        match self.phase {
            FetchPhase::Complete => (self.playlist, Some(self.tracks)),
            _ => (self.playlist, None),
        }
    }
}

} // verus!
