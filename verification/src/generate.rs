//! The daily playlist: a fresh selection of tracks, drawn at random from the
//! curated playlists.
//!
//! The selection starts with the current loop, takes a few tracks from the
//! fresh vibrations, and is filled up from the remaining playlists. What the
//! service is asked to do with it comes in chunks: the tracks that leave the
//! daily playlist, then the tracks that enter it.

use rand::seq::SliceRandom;
use vstd::prelude::*;
use crate::error::Error;
use crate::playlist::Playlist;
use crate::spotify::CHUNK_SIZE;
use crate::text::texts;
use crate::track_lists::{Contents, TrackLists};

verus! {

/// How many tracks of the fresh vibrations enter the selection at most.
pub const DISCOVERY_LENGTH: usize = 30;

/// How long the selection is filled up to from the remaining playlists.
pub const PLAYLIST_LENGTH: usize = 175;

/// The random number generator of the thread, carried through unopened.
#[verifier::external_type_specification]
#[verifier::external_body]
pub struct ExThreadRng(rand::rngs::ThreadRng);

/// Whether `a` holds the tracks of `b`, each as often, in some order.
pub open spec fn is_shuffle_of(a: Seq<Seq<char>>, b: Seq<Seq<char>>) -> bool {
    a.to_multiset() == b.to_multiset()
}

/// Calls `rand::seq::SliceRandom::shuffle` on the tracks. Trusted: the call
/// moves the tracks about and does nothing else to them, so afterwards the
/// same tracks are there, each as often as before; in which order is left
/// open.
#[verifier::external_body]
fn shuffle(tracks: &mut Vec<String>, rng: &mut rand::rngs::ThreadRng)
    ensures
        is_shuffle_of(texts(final(tracks)@), texts(old(tracks)@)),
{
    tracks.shuffle(rng);
}

/// Shuffles `tracks` three times over and returns them.
pub fn triple_shuffle(tracks: Vec<String>, rng: &mut rand::rngs::ThreadRng) -> (shuffled: Vec<
    String,
>)
    ensures
        is_shuffle_of(texts(shuffled@), texts(tracks@)),
{
    let mut shuffled = tracks;
    shuffle(&mut shuffled, rng);
    shuffle(&mut shuffled, rng);
    shuffle(&mut shuffled, rng);
    shuffled
}

/// The first `count` of `tracks`, or all of them where there are fewer.
pub open spec fn spec_first(tracks: Seq<Seq<char>>, count: int) -> Seq<Seq<char>> {
    if count <= 0 {
        Seq::empty()
    } else if count >= tracks.len() {
        tracks
    } else {
        tracks.take(count)
    }
}

/// The selection: the current loop, then the first `DISCOVERY_LENGTH` of
/// `discovery`, then as many of the first of `others` as bring the selection
/// to `PLAYLIST_LENGTH`; none of them where it is that long already.
pub open spec fn spec_selection(
    current_loop: Seq<Seq<char>>,
    discovery: Seq<Seq<char>>,
    others: Seq<Seq<char>>,
) -> Seq<Seq<char>> {
    let picked = current_loop + spec_first(discovery, DISCOVERY_LENGTH as int);
    picked + spec_first(others, PLAYLIST_LENGTH - picked.len())
}

/// Returns the selection: the current loop, then the first
/// `DISCOVERY_LENGTH` of `discovery`, then as many of the first of `others`
/// as bring the selection to `PLAYLIST_LENGTH`.
pub fn select(current_loop: Vec<String>, discovery: Vec<String>, others: Vec<String>) -> (selection:
    Vec<String>)
    ensures
        texts(selection@) == spec_selection(
            texts(current_loop@),
            texts(discovery@),
            texts(others@),
        ),
{
    let ghost given_discovery = texts(discovery@);
    let ghost given_others = texts(others@);
    let mut selection = current_loop;
    let mut discovery = discovery;
    let mut others = others;
    discovery.truncate(DISCOVERY_LENGTH);
    assert(texts(discovery@) =~= spec_first(given_discovery, DISCOVERY_LENGTH as int));
    let ghost loop_tracks = selection@;
    let ghost first_tracks = discovery@;
    selection.append(&mut discovery);
    assert(texts(selection@) =~= texts(loop_tracks) + texts(first_tracks));
    let room = if selection.len() >= PLAYLIST_LENGTH {
        0
    } else {
        PLAYLIST_LENGTH - selection.len()
    };
    others.truncate(room);
    assert(texts(others@) =~= spec_first(given_others, PLAYLIST_LENGTH - texts(selection@).len()));
    let ghost picked = selection@;
    let ghost rest = others@;
    selection.append(&mut others);
    assert(texts(selection@) =~= texts(picked) + texts(rest));
    selection
}

/// The chunks of `tracks`: the tracks in order, cut after every `size`.
/// Every chunk but the last holds `size` tracks, and the last holds the
/// rest; no tracks, no chunks.
pub open spec fn spec_chunks(tracks: Seq<Seq<char>>, size: int) -> Seq<Seq<Seq<char>>>
    decreases tracks.len(),
{
    if tracks.len() == 0 {
        Seq::empty()
    } else {
        let before = spec_chunks(tracks.drop_last(), size);
        if before.len() > 0 && before.last().len() < size {
            before.drop_last().push(before.last().push(tracks.last()))
        } else {
            before.push(seq![tracks.last()])
        }
    }
}

/// The contents of each chunk, in order.
pub open spec fn chunk_views(chunks: Seq<Vec<String>>) -> Seq<Seq<Seq<char>>> {
    chunks.map_values(|chunk: Vec<String>| texts(chunk@))
}

/// Returns the chunks of `tracks`: the tracks in order, cut after every
/// `size`.
pub fn chunks(tracks: Vec<String>, size: usize) -> (chunks: Vec<Vec<String>>)
    requires
        size > 0,
    ensures
        chunk_views(chunks@) == spec_chunks(texts(tracks@), size as int),
{
    let mut chunks: Vec<Vec<String>> = Vec::new();
    let mut current: Vec<String> = Vec::new();
    let ghost all = texts(tracks@);
    for track in it: tracks
        invariant
            size > 0,
            it.seq() == tracks@,
            all == texts(tracks@),
            current@.len() < size,
            current@.len() == 0 ==> chunk_views(chunks@) == spec_chunks(
                all.take(it.index() as int),
                size as int,
            ) && (chunks@.len() > 0 ==> chunks@.last()@.len() == size),
            current@.len() > 0 ==> chunk_views(chunks@).push(texts(current@)) == spec_chunks(
                all.take(it.index() as int),
                size as int,
            ),
    {
        proof {
            let n = it.index() as int;
            assert(all.take(n + 1).drop_last() =~= all.take(n));
            assert(all.take(n + 1).last() == track@);
        }
        let ghost done = chunk_views(chunks@);
        let ghost open = texts(current@);
        current.push(track);
        assert(texts(current@) =~= open.push(track@));
        proof {
            if open.len() > 0 {
                assert(done.push(open).drop_last() =~= done);
            } else if done.len() > 0 {
                assert(done.last() == texts(chunks@.last()@));
                assert(open.push(track@) =~= seq![track@]);
            } else {
                assert(open.push(track@) =~= seq![track@]);
            }
        }
        if current.len() == size {
            let ghost full = texts(current@);
            chunks.push(current);
            current = Vec::new();
            assert(chunk_views(chunks@) =~= done.push(full));
        }
    }
    assert(all.take(all.len() as int) =~= all);
    if current.len() > 0 {
        let ghost done = chunk_views(chunks@);
        let ghost open = texts(current@);
        chunks.push(current);
        assert(chunk_views(chunks@) =~= done.push(open));
    }
    chunks
}

/// What the service is asked to do for a new daily playlist: take out the
/// tracks of each chunk of `remove`, then put in the tracks of each chunk of
/// `add`, chunk by chunk in order.
#[derive(Clone, Debug, PartialEq, Eq)]
pub struct DailyPlan {
    /// The tracks that leave the daily playlist.
    pub remove: Vec<Vec<String>>,
    /// The tracks that enter the daily playlist.
    pub add: Vec<Vec<String>>,
}

/// The tracks of `list`, or none where the list has not been fetched.
pub open spec fn spec_tracks_or_none(contents: Contents, list: Playlist) -> Seq<Seq<char>> {
    if contents.contains_key(list) {
        contents[list]
    } else {
        Seq::empty()
    }
}

/// The tracks of the playlists that fill the selection up, playlist after
/// playlist.
pub open spec fn spec_other_tracks(contents: Contents) -> Seq<Seq<char>> {
    spec_tracks_or_none(contents, Playlist::IntoTheAbyss) + spec_tracks_or_none(
        contents,
        Playlist::FlowingAtmosphere,
    ) + spec_tracks_or_none(contents, Playlist::NerveRacking) + spec_tracks_or_none(
        contents,
        Playlist::DeepSpaceWubs,
    )
}

/// Whether the daily playlist can be generated from `contents`: the daily
/// playlist, the current loop and the fresh vibrations have been fetched.
pub open spec fn spec_can_generate(contents: Contents) -> bool {
    &&& contents.contains_key(Playlist::DailyPlaylist)
    &&& contents.contains_key(Playlist::CurrentLoop)
    &&& contents.contains_key(Playlist::FreshVibrations)
}

/// Whether `plan` is a plan for `contents` in which the fresh vibrations
/// came out of their shuffle as `discovery`, the other tracks as `others`,
/// and the selection as `order`.
pub open spec fn spec_plans_daily(
    plan: DailyPlan,
    contents: Contents,
    discovery: Seq<Seq<char>>,
    others: Seq<Seq<char>>,
    order: Seq<Seq<char>>,
) -> bool {
    &&& is_shuffle_of(discovery, contents[Playlist::FreshVibrations])
    &&& is_shuffle_of(others, spec_other_tracks(contents))
    &&& is_shuffle_of(order, spec_selection(contents[Playlist::CurrentLoop], discovery, others))
    &&& chunk_views(plan.remove@) == spec_chunks(
        contents[Playlist::DailyPlaylist],
        CHUNK_SIZE as int,
    )
    &&& chunk_views(plan.add@) == spec_chunks(order, CHUNK_SIZE as int)
}

/// What `daily_playlist` returns for `contents`: a plan for some outcome of
/// the shuffles where the daily playlist can be generated, and the error
/// `PlaylistNotFetched` where it cannot.
pub open spec fn spec_generated(plan: Result<DailyPlan, Error>, contents: Contents) -> bool {
    match plan {
        Ok(plan) => spec_can_generate(contents) && exists|
            discovery: Seq<Seq<char>>,
            others: Seq<Seq<char>>,
            order: Seq<Seq<char>>,
        | #[trigger] spec_plans_daily(plan, contents, discovery, others, order),
        Err(error) => !spec_can_generate(contents) && error == Error::PlaylistNotFetched,
    }
}

/// Returns the plan for a new daily playlist. All tracks of the daily
/// playlist leave it. The tracks that enter are the selection, shuffled:
/// the current loop, tracks drawn from the fresh vibrations, and tracks
/// drawn from the other playlists. Fails with `PlaylistNotFetched` where the
/// daily playlist, the current loop or the fresh vibrations have not been
/// fetched.
pub fn daily_playlist(track_lists: TrackLists, rng: &mut rand::rngs::ThreadRng) -> (plan: Result<
    DailyPlan,
    Error,
>)
    ensures
        spec_generated(plan, track_lists@),
{
    let ghost contents = track_lists@;
    let mut remaining = track_lists;
    let daily = match remaining.remove(Playlist::DailyPlaylist) {
        Some(tracks) => tracks,
        None => return Err(Error::PlaylistNotFetched),
    };
    let current_loop = match remaining.remove(Playlist::CurrentLoop) {
        Some(tracks) => tracks,
        None => return Err(Error::PlaylistNotFetched),
    };
    let fresh_vibrations = match remaining.remove(Playlist::FreshVibrations) {
        Some(tracks) => tracks,
        None => return Err(Error::PlaylistNotFetched),
    };
    let discovery = triple_shuffle(fresh_vibrations, rng);
    let mut others: Vec<String> = Vec::new();
    take_all(&mut remaining, Playlist::IntoTheAbyss, &mut others);
    take_all(&mut remaining, Playlist::FlowingAtmosphere, &mut others);
    take_all(&mut remaining, Playlist::NerveRacking, &mut others);
    take_all(&mut remaining, Playlist::DeepSpaceWubs, &mut others);
    assert(texts(others@) =~= spec_other_tracks(contents));
    let others = triple_shuffle(others, rng);
    let ghost drawn = texts(discovery@);
    let ghost filled = texts(others@);
    let selection = select(current_loop, discovery, others);
    let order = triple_shuffle(selection, rng);
    let ghost entering = texts(order@);
    let plan: Result<DailyPlan, Error> = Ok(
        DailyPlan { remove: chunks(daily, CHUNK_SIZE), add: chunks(order, CHUNK_SIZE) },
    );
    assert(spec_plans_daily(plan->Ok_0, contents, drawn, filled, entering));
    plan
}

/// Moves the tracks of `list` from `track_lists` to the end of `tracks`.
fn take_all(track_lists: &mut TrackLists, list: Playlist, tracks: &mut Vec<String>)
    ensures
        final(track_lists)@ == old(track_lists)@.remove(list),
        texts(final(tracks)@) == texts(old(tracks)@) + spec_tracks_or_none(old(track_lists)@, list),
{
    let ghost before = texts(tracks@);
    match track_lists.remove(list) {
        Some(mut taken) => {
            let ghost added = texts(taken@);
            tracks.append(&mut taken);
            assert(texts(tracks@) =~= before + added);
        },
        None => {
            assert(texts(tracks@) =~= before + Seq::<Seq<char>>::empty());
        },
    }
}

/// The chunks hold the tracks: put one after the other they are the
/// tracks again, every chunk holds at least one track and at most `size`,
/// and every chunk but the last holds `size`.
pub proof fn lemma_chunks_hold_the_tracks(tracks: Seq<Seq<char>>, size: int)
    requires
        size > 0,
    ensures
        spec_chunks(tracks, size).flatten_alt() == tracks,
        forall|i: int|
            0 <= i < spec_chunks(tracks, size).len() ==> 0 < (#[trigger] spec_chunks(
                tracks,
                size,
            )[i]).len() <= size,
        forall|i: int|
            0 <= i < spec_chunks(tracks, size).len() - 1 ==> (#[trigger] spec_chunks(
                tracks,
                size,
            )[i]).len() == size,
    decreases tracks.len(),
{
    if tracks.len() > 0 {
        let before = spec_chunks(tracks.drop_last(), size);
        let chunks = spec_chunks(tracks, size);
        lemma_chunks_hold_the_tracks(tracks.drop_last(), size);
        if before.len() > 0 && before.last().len() < size {
            assert(chunks.drop_last() =~= before.drop_last());
            assert(chunks.flatten_alt() =~= before.drop_last().flatten_alt() + before.last().push(
                tracks.last(),
            ));
            assert(before.flatten_alt() =~= before.drop_last().flatten_alt() + before.last());
            assert(chunks.flatten_alt() =~= tracks.drop_last().push(tracks.last()));
            assert forall|i: int| 0 <= i < chunks.len() - 1 implies (#[trigger] chunks[i]).len()
                == size by {
                assert(chunks[i] == before[i]);
            }
        } else {
            assert(chunks.drop_last() =~= before);
            assert(chunks.flatten_alt() =~= before.flatten_alt() + seq![tracks.last()]);
            assert(chunks.flatten_alt() =~= tracks.drop_last().push(tracks.last()));
            assert forall|i: int| 0 <= i < chunks.len() - 1 implies (#[trigger] chunks[i]).len()
                == size by {
                assert(chunks[i] == before[i]);
                if i == before.len() - 1 {
                    assert(before.last() == before[i]);
                }
            }
        }
        assert(tracks.drop_last().push(tracks.last()) =~= tracks);
    }
}

} // verus!
