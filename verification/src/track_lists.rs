//! The track-list cache: which tracks each curated playlist holds, as far as
//! the lists have been fetched. A list that is absent has not been fetched
//! yet; that is not the same as a list that is present and empty.

use vstd::prelude::*;
use crate::playlist::Playlist;
use crate::text::{contains_text, copy_texts, texts};

verus! {

/// What the track lists hold: the tracks of each fetched playlist.
pub type Contents = Map<Playlist, Seq<Seq<char>>>;

/// The outcome of fetching one playlist: its tracks, or nothing where the
/// fetch failed.
pub type Fetched = (Playlist, Option<Vec<String>>);

/// The outcome of fetching one playlist, as contracts see it.
pub type Outcome = (Playlist, Option<Seq<Seq<char>>>);

/// The contents of a fetch outcome.
pub open spec fn fetched_view(fetched: Fetched) -> Outcome {
    (
        fetched.0,
        match fetched.1 {
            Some(tracks) => Some(texts(tracks@)),
            None => None,
        },
    )
}

/// The contents of each fetch outcome, in order.
pub open spec fn fetched_views(fetched: Seq<Fetched>) -> Seq<Outcome> {
    fetched.map_values(|f: Fetched| fetched_view(f))
}

/// The contents after the outcome of fetching `list` is taken in: fetched
/// tracks replace what the list had, a failed fetch changes nothing.
pub open spec fn spec_store(
    contents: Contents,
    list: Playlist,
    fetched: Option<Seq<Seq<char>>>,
) -> Contents {
    match fetched {
        Some(tracks) => contents.insert(list, tracks),
        None => contents,
    }
}

/// The contents after the outcomes `fetched` are taken in, first to last.
pub open spec fn spec_store_all(
    contents: Contents,
    fetched: Seq<Outcome>,
) -> Contents
    decreases fetched.len(),
{
    if fetched.len() == 0 {
        contents
    } else {
        spec_store(
            spec_store_all(contents, fetched.drop_last()),
            fetched.last().0,
            fetched.last().1,
        )
    }
}

/// The playlists whose fetch failed, in the order of `fetched`.
pub open spec fn spec_failed(fetched: Seq<Outcome>) -> Seq<Playlist>
    decreases fetched.len(),
{
    if fetched.len() == 0 {
        Seq::empty()
    } else if fetched.last().1 is None {
        spec_failed(fetched.drop_last()).push(fetched.last().0)
    } else {
        spec_failed(fetched.drop_last())
    }
}

/// Whether no fetch of `list` among `fetched` succeeded: each failed, or
/// there was none.
pub open spec fn no_fetch_succeeded(
    fetched: Seq<Outcome>,
    list: Playlist,
) -> bool {
    forall|i: int|
        0 <= i < fetched.len() && (#[trigger] fetched[i]).0 == list ==> fetched[i].1 is None
}

/// Whether `list` is in the same state in `a` and in `b`: fetched in both
/// with the same tracks, or fetched in neither.
pub open spec fn same_entry(a: Contents, b: Contents, list: Playlist) -> bool {
    &&& a.contains_key(list) == b.contains_key(list)
    &&& a.contains_key(list) ==> a[list] == b[list]
}

/// What came back when `fetch` was called once for each list of `subset`, in
/// order: `outcomes` pairs each list with what its call returned.
pub open spec fn fetched_by<F: Fn(Playlist) -> Option<Vec<String>>>(
    fetch: F,
    subset: Seq<Playlist>,
    outcomes: Seq<Fetched>,
) -> bool {
    &&& outcomes.len() == subset.len()
    &&& forall|i: int|
        0 <= i < subset.len() ==> (#[trigger] outcomes[i]).0 == subset[i] && call_ensures(
            fetch,
            (subset[i],),
            outcomes[i].1,
        )
}

/// A fetched playlist with its tracks.
pub type Entry = (Playlist, Vec<String>);

/// The contents of each entry, in order.
pub open spec fn entry_views(entries: Seq<Entry>) -> Seq<(Playlist, Seq<Seq<char>>)> {
    entries.map_values(|e: Entry| (e.0, texts(e.1@)))
}

/// Whether `entries` lists `contents`: one entry for each fetched playlist,
/// in the order of the playlists, with the tracks of that playlist.
pub open spec fn lists_contents(
    entries: Seq<(Playlist, Seq<Seq<char>>)>,
    contents: Contents,
) -> bool {
    &&& forall|i: int, j: int|
        0 <= i < j < entries.len() ==> (#[trigger] entries[i]).0.spec_index() < (
        #[trigger] entries[j]).0.spec_index()
    &&& forall|i: int|
        0 <= i < entries.len() ==> contents.contains_key((#[trigger] entries[i]).0)
            && contents[entries[i].0] == entries[i].1
    &&& forall|list: Playlist| #[trigger]
        contents.contains_key(list) ==> exists|i: int|
            0 <= i < entries.len() && (#[trigger] entries[i]).0 == list
}

/// The contents that hold each entry of `entries`; where a playlist has
/// several entries, the last one counts.
pub open spec fn spec_from_entries(entries: Seq<(Playlist, Seq<Seq<char>>)>) -> Contents
    decreases entries.len(),
{
    if entries.len() == 0 {
        Map::empty()
    } else {
        spec_from_entries(entries.drop_last()).insert(entries.last().0, entries.last().1)
    }
}

/// The tracks of the fetched playlists, one slot for each playlist.
///
/// Its view is the mapping from each fetched playlist to the identifiers of
/// its tracks, in the order of the playlist.
#[derive(Clone, Debug, PartialEq, Eq)]
pub struct TrackLists {
    current_loop: Option<Vec<String>>,
    fresh_vibrations: Option<Vec<String>>,
    into_the_abyss: Option<Vec<String>>,
    flowing_atmosphere: Option<Vec<String>>,
    nerve_racking: Option<Vec<String>>,
    deep_space_wubs: Option<Vec<String>>,
    daily_playlist: Option<Vec<String>>,
}

impl View for TrackLists {
    type V = Contents;

    closed spec fn view(&self) -> Contents {
        Map::new(
            |list: Playlist| self.slot(list) is Some,
            |list: Playlist| texts(self.slot(list)->0@),
        )
    }
}

impl TrackLists {
    /// What the slot of `list` holds.
    closed spec fn slot(self, list: Playlist) -> Option<Vec<String>> {
        match list {
            Playlist::CurrentLoop => self.current_loop,
            Playlist::FreshVibrations => self.fresh_vibrations,
            Playlist::IntoTheAbyss => self.into_the_abyss,
            Playlist::FlowingAtmosphere => self.flowing_atmosphere,
            Playlist::NerveRacking => self.nerve_racking,
            Playlist::DeepSpaceWubs => self.deep_space_wubs,
            Playlist::DailyPlaylist => self.daily_playlist,
        }
    }

    /// Returns track lists in which no playlist has been fetched.
    pub fn new() -> (lists: TrackLists)
        ensures
            lists@ == Contents::empty(),
    {
        let lists = TrackLists {
            current_loop: None,
            fresh_vibrations: None,
            into_the_abyss: None,
            flowing_atmosphere: None,
            nerve_racking: None,
            deep_space_wubs: None,
            daily_playlist: None,
        };
        assert(lists@ =~= Contents::empty());
        lists
    }

    /// Returns the tracks of `list`, if it has been fetched.
    pub fn get(&self, list: Playlist) -> (found: Option<&Vec<String>>)
        ensures
            found is Some <==> self@.contains_key(list),
            found matches Some(tracks) ==> texts(tracks@) == self@[list],
    {
        match list {
            Playlist::CurrentLoop => self.current_loop.as_ref(),
            Playlist::FreshVibrations => self.fresh_vibrations.as_ref(),
            Playlist::IntoTheAbyss => self.into_the_abyss.as_ref(),
            Playlist::FlowingAtmosphere => self.flowing_atmosphere.as_ref(),
            Playlist::NerveRacking => self.nerve_racking.as_ref(),
            Playlist::DeepSpaceWubs => self.deep_space_wubs.as_ref(),
            Playlist::DailyPlaylist => self.daily_playlist.as_ref(),
        }
    }

    /// Tells whether `list` has been fetched.
    pub fn contains_key(&self, list: Playlist) -> (fetched: bool)
        ensures
            fetched == self@.contains_key(list),
    {
        self.get(list).is_some()
    }

    /// Puts `tracks` in the place of `list`, and returns what was there.
    pub fn insert(&mut self, list: Playlist, tracks: Vec<String>) -> (previous: Option<Vec<String>>)
        ensures
            final(self)@ == old(self)@.insert(list, texts(tracks@)),
            previous is Some <==> old(self)@.contains_key(list),
            previous matches Some(p) ==> texts(p@) == old(self)@[list],
    {
        let previous = self.replace(list, Some(tracks));
        assert(self@ =~= old(self)@.insert(list, texts(tracks@)));
        previous
    }

    /// Forgets `list`, and returns the tracks it had.
    pub fn remove(&mut self, list: Playlist) -> (previous: Option<Vec<String>>)
        ensures
            final(self)@ == old(self)@.remove(list),
            previous is Some <==> old(self)@.contains_key(list),
            previous matches Some(p) ==> texts(p@) == old(self)@[list],
    {
        let previous = self.replace(list, None);
        assert(self@ =~= old(self)@.remove(list));
        previous
    }

    /// Whether `list` has been fetched and holds `track`.
    pub open spec fn spec_holds(&self, list: Playlist, track: Seq<char>) -> bool {
        self@.contains_key(list) && self@[list].contains(track)
    }

    /// Returns the fetched playlists that hold `track`, each once, in the
    /// order of the playlists.
    pub fn membership(&self, track: &String) -> (lists: Vec<Playlist>)
        ensures
            forall|list: Playlist| lists@.contains(list) <==> self.spec_holds(list, track@),
            forall|i: int, j: int|
                0 <= i < j < lists@.len() ==> lists@[i].spec_index() < lists@[j].spec_index(),
    {
        let all = Playlist::all();
        let mut lists: Vec<Playlist> = Vec::new();
        let mut k: usize = 0;
        while k < all.len()
            invariant
                k <= all@.len(),
                all@ == Playlist::spec_all(),
                forall|list: Playlist|
                    lists@.contains(list) <==> (list.spec_index() < k && self.spec_holds(
                        list,
                        track@,
                    )),
                forall|i: int, j: int|
                    0 <= i < j < lists@.len() ==> lists@[i].spec_index() < lists@[j].spec_index(),
            decreases all@.len() - k,
        {
            let list = all[k];
            let ghost before = lists@;
            let held = match self.get(list) {
                Some(tracks) => contains_text(tracks, track),
                None => false,
            };
            if held {
                lists.push(list);
                assert(lists@.last() == list);
                assert forall|other: Playlist|
                    lists@.contains(other) <==> (other.spec_index() < k + 1 && self.spec_holds(
                        other,
                        track@,
                    )) by {
                    if before.contains(other) {
                        let i = choose|i: int| 0 <= i < before.len() && before[i] == other;
                        assert(lists@[i] == other);
                    }
                    if lists@.contains(other) {
                        let i = choose|i: int| 0 <= i < lists@.len() && lists@[i] == other;
                        if i < before.len() {
                            assert(before[i] == other);
                        }
                    }
                }
                assert forall|i: int, j: int| 0 <= i < j < lists@.len() implies lists@[i].spec_index()
                    < lists@[j].spec_index() by {
                    if j == before.len() {
                        assert(before.contains(before[i]));
                    }
                }
            }
            k += 1;
        }
        proof {
            assert forall|list: Playlist| list.spec_index() < all@.len() by {
                list.lemma_all_is_complete();
            }
        }
        lists
    }

    /// Takes in the outcome of fetching `list`: fetched tracks replace what
    /// the list had, a failed fetch leaves the list as it was. Tells whether
    /// the list was replaced.
    pub fn store(&mut self, list: Playlist, fetched: Option<Vec<String>>) -> (replaced: bool)
        ensures
            final(self)@ == spec_store(old(self)@, list, fetched_view((list, fetched)).1),
            replaced == fetched is Some,
    {
        match fetched {
            Some(tracks) => {
                self.insert(list, tracks);
                true
            },
            None => false,
        }
    }

    /// Takes in the outcomes of fetching several playlists, first to last,
    /// and returns the playlists whose fetch failed. Playlists that were not
    /// fetched, and playlists whose fetch failed, keep what they had.
    pub fn store_all(&mut self, fetched: Vec<Fetched>) -> (failed: Vec<Playlist>)
        ensures
            final(self)@ == spec_store_all(old(self)@, fetched_views(fetched@)),
            failed@ == spec_failed(fetched_views(fetched@)),
            forall|list: Playlist|
                no_fetch_succeeded(fetched_views(fetched@), list) ==> same_entry(
                    final(self)@,
                    old(self)@,
                    list,
                ),
    {
        let mut failed: Vec<Playlist> = Vec::new();
        let ghost views = fetched_views(fetched@);
        for outcome in it: fetched
            invariant
                it.seq() == fetched@,
                views == fetched_views(fetched@),
                self@ == spec_store_all(old(self)@, views.take(it.index() as int)),
                failed@ == spec_failed(views.take(it.index() as int)),
        {
            proof {
                let n = it.index() as int;
                assert(views.take(n + 1).drop_last() =~= views.take(n));
                assert(views.take(n + 1).last() == fetched_view(outcome));
            }
            let (list, tracks) = outcome;
            if !self.store(list, tracks) {
                failed.push(list);
            }
        }
        assert(views.take(views.len() as int) =~= views);
        proof {
            assert forall|list: Playlist| no_fetch_succeeded(views, list) implies same_entry(
                self@,
                old(self)@,
                list,
            ) by {
                lemma_failed_fetch_keeps_list(old(self)@, views, list);
            }
        }
        failed
    }

    /// Fetches each list of `subset` with `fetch`, in order, and takes in what
    /// came back: a fetched list replaces what the cache had, a list whose
    /// fetch failed keeps what it had, and so does every list outside
    /// `subset`. Returns the lists whose fetch failed.
    pub fn refresh<F: Fn(Playlist) -> Option<Vec<String>>>(
        &mut self,
        subset: &Vec<Playlist>,
        fetch: F,
    ) -> (failed: Vec<Playlist>)
        requires
            forall|i: int| 0 <= i < subset@.len() ==> call_requires(fetch, (#[trigger] subset@[i],)),
        ensures
            exists|outcomes: Seq<Fetched>| #[trigger]
                fetched_by(fetch, subset@, outcomes) && final(self)@ == spec_store_all(
                    old(self)@,
                    fetched_views(outcomes),
                ) && failed@ == spec_failed(fetched_views(outcomes)),
            forall|list: Playlist|
                !subset@.contains(list) ==> same_entry(final(self)@, old(self)@, list),
    {
        let mut outcomes: Vec<Fetched> = Vec::new();
        let mut i: usize = 0;
        while i < subset.len()
            invariant
                i <= subset@.len(),
                forall|j: int|
                    0 <= j < subset@.len() ==> call_requires(fetch, (#[trigger] subset@[j],)),
                fetched_by(fetch, subset@.take(i as int), outcomes@),
            decreases subset@.len() - i,
        {
            let list = subset[i];
            let tracks = fetch(list);
            outcomes.push((list, tracks));
            i += 1;
        }
        assert(subset@.take(subset@.len() as int) =~= subset@);
        let ghost log = outcomes@;
        let failed = self.store_all(outcomes);
        assert(fetched_by(fetch, subset@, log));
        proof {
            assert forall|list: Playlist| !subset@.contains(list) implies no_fetch_succeeded(
                fetched_views(log),
                list,
            ) by {
                assert forall|i: int|
                    0 <= i < log.len() implies (#[trigger] fetched_views(log)[i]).0 != list by {
                    assert(log[i].0 == subset@[i]);
                }
            }
        }
        failed
    }

    /// Returns one entry for each fetched playlist, in the order of the
    /// playlists, with a copy of its tracks.
    pub fn entries(&self) -> (entries: Vec<Entry>)
        ensures
            lists_contents(entry_views(entries@), self@),
    {
        let all = Playlist::all();
        let mut entries: Vec<Entry> = Vec::new();
        let mut k: usize = 0;
        while k < all.len()
            invariant
                k <= all@.len(),
                all@ == Playlist::spec_all(),
                forall|i: int, j: int|
                    0 <= i < j < entries@.len() ==> (#[trigger] entries@[i]).0.spec_index() < (
                    #[trigger] entries@[j]).0.spec_index(),
                forall|i: int|
                    0 <= i < entries@.len() ==> (#[trigger] entries@[i]).0.spec_index() < k
                        && self@.contains_key(entries@[i].0) && self@[entries@[i].0] == texts(
                        entries@[i].1@,
                    ),
                forall|list: Playlist|
                    list.spec_index() < k && #[trigger] self@.contains_key(list) ==> exists|i: int|
                        0 <= i < entries@.len() && (#[trigger] entries@[i]).0 == list,
            decreases all@.len() - k,
        {
            let list = all[k];
            let ghost before = entries@;
            match self.get(list) {
                Some(tracks) => {
                    entries.push((list, copy_texts(tracks)));
                    assert(entries@.last().0 == list);
                    assert forall|other: Playlist|
                        other.spec_index() < k + 1 && #[trigger] self@.contains_key(
                            other,
                        ) implies exists|i: int|
                        0 <= i < entries@.len() && (#[trigger] entries@[i]).0 == other by {
                        if other.spec_index() < k {
                            let i = choose|i: int|
                                0 <= i < before.len() && (#[trigger] before[i]).0 == other;
                            assert(entries@[i].0 == other);
                        } else {
                            other.lemma_all_is_complete();
                            assert(entries@[before.len() as int].0 == other);
                        }
                    }
                },
                None => {
                    assert forall|other: Playlist|
                        other.spec_index() < k + 1 && #[trigger] self@.contains_key(
                            other,
                        ) implies exists|i: int|
                        0 <= i < entries@.len() && (#[trigger] entries@[i]).0 == other by {
                        other.lemma_all_is_complete();
                    }
                },
            }
            k += 1;
        }
        proof {
            let views = entry_views(entries@);
            assert forall|list: Playlist| #[trigger] self@.contains_key(list) implies exists|i: int|
                0 <= i < views.len() && (#[trigger] views[i]).0 == list by {
                list.lemma_all_is_complete();
                let i = choose|i: int| 0 <= i < entries@.len() && (#[trigger] entries@[i]).0 == list;
                assert(views[i].0 == list);
            }
        }
        entries
    }

    /// Returns the track lists that hold each entry of `entries`; where a
    /// playlist has several entries, the last one counts.
    pub fn from_entries(entries: Vec<Entry>) -> (lists: TrackLists)
        ensures
            lists@ == spec_from_entries(entry_views(entries@)),
    {
        let mut lists = TrackLists::new();
        let ghost views = entry_views(entries@);
        for entry in it: entries
            invariant
                it.seq() == entries@,
                views == entry_views(entries@),
                lists@ == spec_from_entries(views.take(it.index() as int)),
        {
            proof {
                let n = it.index() as int;
                assert(views.take(n + 1).drop_last() =~= views.take(n));
                assert(views.take(n + 1).last() == (entry.0, texts(entry.1@)));
            }
            let (list, tracks) = entry;
            lists.insert(list, tracks);
        }
        assert(views.take(views.len() as int) =~= views);
        lists
    }

    /// Sets the slot of `list` to `content` and returns what it held.
    fn replace(&mut self, list: Playlist, content: Option<Vec<String>>) -> (previous: Option<
        Vec<String>,
    >)
        ensures
            final(self).slot(list) == content,
            forall|other: Playlist| other != list ==> final(self).slot(other) == old(self).slot(other),
            previous == old(self).slot(list),
    {
        match list {
            Playlist::CurrentLoop => {
                let previous = self.current_loop.take();
                self.current_loop = content;
                previous
            },
            Playlist::FreshVibrations => {
                let previous = self.fresh_vibrations.take();
                self.fresh_vibrations = content;
                previous
            },
            Playlist::IntoTheAbyss => {
                let previous = self.into_the_abyss.take();
                self.into_the_abyss = content;
                previous
            },
            Playlist::FlowingAtmosphere => {
                let previous = self.flowing_atmosphere.take();
                self.flowing_atmosphere = content;
                previous
            },
            Playlist::NerveRacking => {
                let previous = self.nerve_racking.take();
                self.nerve_racking = content;
                previous
            },
            Playlist::DeepSpaceWubs => {
                let previous = self.deep_space_wubs.take();
                self.deep_space_wubs = content;
                previous
            },
            Playlist::DailyPlaylist => {
                let previous = self.daily_playlist.take();
                self.daily_playlist = content;
                previous
            },
        }
    }
}

/// Partial refresh is non-destructive: a playlist that was not fetched, or
/// whose every fetch failed, is after the refresh in the state it was in
/// before, whatever was fetched for the other playlists.
pub proof fn lemma_failed_fetch_keeps_list(
    contents: Contents,
    fetched: Seq<Outcome>,
    list: Playlist,
)
    requires
        no_fetch_succeeded(fetched, list),
    ensures
        same_entry(spec_store_all(contents, fetched), contents, list),
    decreases fetched.len(),
{
    if fetched.len() > 0 {
        let rest = fetched.drop_last();
        assert forall|i: int| 0 <= i < rest.len() && (#[trigger] rest[i]).0 == list implies rest[i].1 is None by {
            assert(rest[i] == fetched[i]);
        }
        lemma_failed_fetch_keeps_list(contents, rest, list);
        assert(fetched.last() == fetched[fetched.len() - 1]);
    }
}

/// A refresh forgets nothing: a playlist that was fetched before is still
/// fetched after, whatever the outcomes were.
pub proof fn lemma_refresh_forgets_nothing(
    contents: Contents,
    fetched: Seq<Outcome>,
    list: Playlist,
)
    requires
        contents.contains_key(list),
    ensures
        spec_store_all(contents, fetched).contains_key(list),
    decreases fetched.len(),
{
    if fetched.len() > 0 {
        lemma_refresh_forgets_nothing(contents, fetched.drop_last(), list);
    }
}

/// After a refresh a playlist holds what its last successful fetch brought:
/// if the fetch at `at` succeeded and every later fetch of the same playlist
/// failed, the playlist holds the tracks fetched at `at`.
pub proof fn lemma_last_fetch_wins(
    contents: Contents,
    fetched: Seq<Outcome>,
    at: int,
)
    requires
        0 <= at < fetched.len(),
        fetched[at].1 is Some,
        forall|i: int|
            at < i < fetched.len() && (#[trigger] fetched[i]).0 == fetched[at].0 ==> fetched[i].1 is None,
    ensures
        spec_store_all(contents, fetched).contains_key(fetched[at].0),
        spec_store_all(contents, fetched)[fetched[at].0] == fetched[at].1->0,
    decreases fetched.len(),
{
    let rest = fetched.drop_last();
    if at < fetched.len() - 1 {
        assert(rest[at] == fetched[at]);
        assert forall|i: int|
            at < i < rest.len() && (#[trigger] rest[i]).0 == rest[at].0 implies rest[i].1 is None by {
            assert(rest[i] == fetched[i]);
        }
        lemma_last_fetch_wins(contents, rest, at);
        assert(fetched.last() == fetched[fetched.len() - 1]);
    }
}

/// Listing track lists and building track lists from the listing gives the
/// same contents back.
pub proof fn lemma_entries_round_trip(entries: Seq<(Playlist, Seq<Seq<char>>)>, contents: Contents)
    requires
        lists_contents(entries, contents),
    ensures
        spec_from_entries(entries) == contents,
{
    lemma_from_entries_prefix(entries, entries.len() as int);
    assert(entries.take(entries.len() as int) =~= entries);
    let built = spec_from_entries(entries);
    assert forall|list: Playlist| built.contains_key(list) <==> contents.contains_key(list) by {
        if built.contains_key(list) {
            let i = choose|i: int| 0 <= i < entries.len() && (#[trigger] entries[i]).0 == list;
        }
        if contents.contains_key(list) {
            let i = choose|i: int| 0 <= i < entries.len() && (#[trigger] entries[i]).0 == list;
        }
    }
    assert forall|list: Playlist| built.contains_key(list) implies built[list] == contents[list] by {
        let i = choose|i: int| 0 <= i < entries.len() && (#[trigger] entries[i]).0 == list;
    }
    assert(built =~= contents);
}

/// What the contents built from the first `k` of entries with distinct
/// playlists hold: exactly those entries.
proof fn lemma_from_entries_prefix(entries: Seq<(Playlist, Seq<Seq<char>>)>, k: int)
    requires
        0 <= k <= entries.len(),
        forall|i: int, j: int|
            0 <= i < j < entries.len() ==> (#[trigger] entries[i]).0.spec_index() < (
            #[trigger] entries[j]).0.spec_index(),
    ensures
        forall|list: Playlist|
            spec_from_entries(entries.take(k)).contains_key(list) <==> exists|i: int|
                0 <= i < k && (#[trigger] entries[i]).0 == list,
        forall|i: int|
            0 <= i < k ==> spec_from_entries(entries.take(k))[(#[trigger] entries[i]).0]
                == entries[i].1,
    decreases k,
{
    if k > 0 {
        lemma_from_entries_prefix(entries, k - 1);
        assert(entries.take(k).drop_last() =~= entries.take(k - 1));
        assert(entries.take(k).last() == entries[k - 1]);
        let built = spec_from_entries(entries.take(k));
        let before = spec_from_entries(entries.take(k - 1));
        assert(built == before.insert(entries[k - 1].0, entries[k - 1].1));
        assert forall|list: Playlist| built.contains_key(list) <==> exists|i: int|
            0 <= i < k && (#[trigger] entries[i]).0 == list by {
            if built.contains_key(list) {
                if list == entries[k - 1].0 {
                } else {
                    let i = choose|i: int| 0 <= i < k - 1 && (#[trigger] entries[i]).0 == list;
                    assert(0 <= i < k && entries[i].0 == list);
                }
            }
            if exists|i: int| 0 <= i < k && (#[trigger] entries[i]).0 == list {
                let i = choose|i: int| 0 <= i < k && (#[trigger] entries[i]).0 == list;
                if i < k - 1 {
                    assert(before.contains_key(list));
                }
            }
        }
        assert forall|i: int| 0 <= i < k implies built[(#[trigger] entries[i]).0] == entries[i].1 by {
            if i < k - 1 {
                assert(entries[i].0.spec_index() < entries[k - 1].0.spec_index());
            }
        }
    } else {
        assert(entries.take(0) =~= Seq::empty());
    }
}

} // verus!
