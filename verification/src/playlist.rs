//! The curated playlists: a closed, ordered set of tags, each with the
//! identifier under which the streaming service knows it.

use vstd::prelude::*;
use vstd::string::*;

verus! {

/// How many curated playlists there are.
pub const PLAYLIST_COUNT: usize = 7;

/// One of the curated playlists. The variants are ordered as declared.
#[derive(Clone, Copy, Debug, PartialEq, Eq, PartialOrd, Ord, Hash, Structural)]
pub enum Playlist {
    CurrentLoop,
    FreshVibrations,
    IntoTheAbyss,
    FlowingAtmosphere,
    NerveRacking,
    DeepSpaceWubs,
    DailyPlaylist,
}

impl Playlist {
    /// The identifier of the playlist at the streaming service.
    pub open spec fn spec_id(self) -> Seq<char> {
        match self {
            Playlist::CurrentLoop => "77JTZoDLsmXm1ODTdVc1oz"@,
            Playlist::FreshVibrations => "7tmG3W0fLJw9eDEaRCG8VY"@,
            Playlist::IntoTheAbyss => "0oc9wsvrxgwI17PCfbEo1l"@,
            Playlist::FlowingAtmosphere => "4Ty1f3XV2rOPrNOOBMPldQ"@,
            Playlist::NerveRacking => "1THuBLaWoC0E8PNo2MsFka"@,
            Playlist::DeepSpaceWubs => "5bQBn71eqqtVqTPsB0XlFf"@,
            Playlist::DailyPlaylist => "42O1aSlfF0vlmLuBkPlcDO"@,
        }
    }

    /// The name under which the command line knows the playlist.
    pub open spec fn spec_name(self) -> Seq<char> {
        match self {
            Playlist::CurrentLoop => "current-loop"@,
            Playlist::FreshVibrations => "fresh-vibrations"@,
            Playlist::IntoTheAbyss => "into-the-abyss"@,
            Playlist::FlowingAtmosphere => "flowing-atmosphere"@,
            Playlist::NerveRacking => "nerve-racking"@,
            Playlist::DeepSpaceWubs => "deep-space-wubs"@,
            Playlist::DailyPlaylist => "daily-playlist"@,
        }
    }

    /// The position of the playlist in the order of the variants.
    pub open spec fn spec_index(self) -> nat {
        match self {
            Playlist::CurrentLoop => 0,
            Playlist::FreshVibrations => 1,
            Playlist::IntoTheAbyss => 2,
            Playlist::FlowingAtmosphere => 3,
            Playlist::NerveRacking => 4,
            Playlist::DeepSpaceWubs => 5,
            Playlist::DailyPlaylist => 6,
        }
    }

    /// Every playlist, in order.
    pub open spec fn spec_all() -> Seq<Playlist> {
        seq![
            Playlist::CurrentLoop,
            Playlist::FreshVibrations,
            Playlist::IntoTheAbyss,
            Playlist::FlowingAtmosphere,
            Playlist::NerveRacking,
            Playlist::DeepSpaceWubs,
            Playlist::DailyPlaylist,
        ]
    }

    /// The two working lists, which the daemon keeps fresh.
    pub open spec fn spec_working() -> Seq<Playlist> {
        seq![Playlist::CurrentLoop, Playlist::FreshVibrations]
    }

    /// The lists a track can be switched to.
    pub open spec fn spec_switchable() -> Seq<Playlist> {
        seq![
            Playlist::CurrentLoop,
            Playlist::IntoTheAbyss,
            Playlist::FlowingAtmosphere,
            Playlist::NerveRacking,
            Playlist::DeepSpaceWubs,
        ]
    }

    /// Returns the identifier of the playlist at the streaming service.
    pub fn id(&self) -> (id: String)
        ensures
            id@ == self.spec_id(),
    {
        let id: &str = match self {
            Playlist::CurrentLoop => "77JTZoDLsmXm1ODTdVc1oz",
            Playlist::FreshVibrations => "7tmG3W0fLJw9eDEaRCG8VY",
            Playlist::IntoTheAbyss => "0oc9wsvrxgwI17PCfbEo1l",
            Playlist::FlowingAtmosphere => "4Ty1f3XV2rOPrNOOBMPldQ",
            Playlist::NerveRacking => "1THuBLaWoC0E8PNo2MsFka",
            Playlist::DeepSpaceWubs => "5bQBn71eqqtVqTPsB0XlFf",
            Playlist::DailyPlaylist => "42O1aSlfF0vlmLuBkPlcDO",
        };
        String::from_str(id)
    }

    /// Returns the name under which the command line knows the playlist.
    pub fn name(&self) -> (name: String)
        ensures
            name@ == self.spec_name(),
    {
        let name: &str = match self {
            Playlist::CurrentLoop => "current-loop",
            Playlist::FreshVibrations => "fresh-vibrations",
            Playlist::IntoTheAbyss => "into-the-abyss",
            Playlist::FlowingAtmosphere => "flowing-atmosphere",
            Playlist::NerveRacking => "nerve-racking",
            Playlist::DeepSpaceWubs => "deep-space-wubs",
            Playlist::DailyPlaylist => "daily-playlist",
        };
        String::from_str(name)
    }

    /// Returns the position of the playlist in the order of the variants.
    pub fn index(&self) -> (i: usize)
        ensures
            i == self.spec_index(),
            i < PLAYLIST_COUNT,
            Playlist::spec_all()[i as int] == *self,
    {
        match self {
            Playlist::CurrentLoop => 0,
            Playlist::FreshVibrations => 1,
            Playlist::IntoTheAbyss => 2,
            Playlist::FlowingAtmosphere => 3,
            Playlist::NerveRacking => 4,
            Playlist::DeepSpaceWubs => 5,
            Playlist::DailyPlaylist => 6,
        }
    }

    /// Returns every playlist, in order.
    pub fn all() -> (lists: Vec<Playlist>)
        ensures
            lists@ == Playlist::spec_all(),
    {
        let lists = vec![
            Playlist::CurrentLoop,
            Playlist::FreshVibrations,
            Playlist::IntoTheAbyss,
            Playlist::FlowingAtmosphere,
            Playlist::NerveRacking,
            Playlist::DeepSpaceWubs,
            Playlist::DailyPlaylist,
        ];
        assert(lists@ =~= Playlist::spec_all());
        lists
    }

    /// Returns the two working lists, current loop first.
    pub fn working() -> (lists: Vec<Playlist>)
        ensures
            lists@ == Playlist::spec_working(),
    {
        let lists = vec![Playlist::CurrentLoop, Playlist::FreshVibrations];
        assert(lists@ =~= Playlist::spec_working());
        lists
    }

    /// Returns the lists a track can be switched to, in order.
    pub fn switchable() -> (lists: Vec<Playlist>)
        ensures
            lists@ == Playlist::spec_switchable(),
    {
        let lists = vec![
            Playlist::CurrentLoop,
            Playlist::IntoTheAbyss,
            Playlist::FlowingAtmosphere,
            Playlist::NerveRacking,
            Playlist::DeepSpaceWubs,
        ];
        assert(lists@ =~= Playlist::spec_switchable());
        lists
    }

    /// No two playlists share an identifier: the table from playlists to
    /// identifiers can be read backwards.
    pub proof fn lemma_ids_are_distinct(self, other: Playlist)
        requires
            self != other,
        ensures
            self.spec_id() != other.spec_id(),
    {
        reveal_strlit("77JTZoDLsmXm1ODTdVc1oz");
        reveal_strlit("7tmG3W0fLJw9eDEaRCG8VY");
        reveal_strlit("0oc9wsvrxgwI17PCfbEo1l");
        reveal_strlit("4Ty1f3XV2rOPrNOOBMPldQ");
        reveal_strlit("1THuBLaWoC0E8PNo2MsFka");
        reveal_strlit("5bQBn71eqqtVqTPsB0XlFf");
        reveal_strlit("42O1aSlfF0vlmLuBkPlcDO");
        assert(self.spec_id()[0] != other.spec_id()[0] || self.spec_id()[1] != other.spec_id()[1]);
    }

    /// Every playlist has exactly one place in the order: `spec_all` lists
    /// each playlist once, at its index.
    pub proof fn lemma_all_is_complete(self)
        ensures
            Playlist::spec_all().len() == PLAYLIST_COUNT,
            self.spec_index() < PLAYLIST_COUNT,
            Playlist::spec_all()[self.spec_index() as int] == self,
            forall|i: int|
                0 <= i < PLAYLIST_COUNT ==> (#[trigger] Playlist::spec_all()[i]).spec_index() == i,
    {
    }
}

} // verus!
