//! The status line of the playing track: its artists, its name, and marks
//! for the working lists that hold it.

use vstd::prelude::*;
use vstd::string::*;
use crate::error::Error;
use crate::playlist::Playlist;
use crate::text::{contains_text, texts};
use crate::track_lists::{Contents, TrackLists};

verus! {

/// A track as the streaming service reports it.
#[derive(Clone, Debug, PartialEq, Eq)]
pub struct Track {
    /// The bare identifier of the track.
    pub id: String,
    /// The identifier under which playlists hold the track.
    pub uri: String,
    /// The display name of the track.
    pub name: String,
    /// The names of the artists, in the order of the credits.
    pub artists: Vec<String>,
}

/// The status shown while no status line can be computed.
pub open spec fn spec_placeholder() -> Seq<char> {
    seq!['-']
}

/// The marks of a track: `C` where the current loop holds it, then `F`
/// where the fresh vibrations hold it.
pub open spec fn spec_marks(in_current_loop: bool, in_fresh_vibrations: bool) -> Seq<char> {
    (if in_current_loop {
        seq!['C']
    } else {
        Seq::empty()
    }) + (if in_fresh_vibrations {
        seq!['F']
    } else {
        Seq::empty()
    })
}

/// The marks of `track` against `contents`; an error unless both working
/// lists have been fetched.
pub open spec fn spec_playlist_status(contents: Contents, track: Seq<char>) -> Result<
    Seq<char>,
    Error,
> {
    if contents.contains_key(Playlist::CurrentLoop) && contents.contains_key(
        Playlist::FreshVibrations,
    ) {
        Ok(
            spec_marks(
                contents[Playlist::CurrentLoop].contains(track),
                contents[Playlist::FreshVibrations].contains(track),
            ),
        )
    } else {
        Err(Error::PlaylistNotFetched)
    }
}

/// The parts of `parts`, in order, with `separator` between neighbours.
pub open spec fn spec_joined(parts: Seq<Seq<char>>, separator: Seq<char>) -> Seq<char>
    decreases parts.len(),
{
    if parts.len() == 0 {
        Seq::empty()
    } else if parts.len() == 1 {
        parts[0]
    } else {
        spec_joined(parts.drop_last(), separator) + separator + parts.last()
    }
}

/// The status line: the artists separated by `, `, then ` - `, the name,
/// and the marks in square brackets.
pub open spec fn spec_status_line(
    artists: Seq<Seq<char>>,
    name: Seq<char>,
    marks: Seq<char>,
) -> Seq<char> {
    spec_joined(artists, seq![',', ' ']) + seq![' ', '-', ' '] + name + seq![' ', '['] + marks
        + seq![']']
}

/// The status line of what is playing; an error where nothing is playing
/// or a working list has not been fetched.
pub open spec fn spec_track_info(now_playing: Option<Track>, contents: Contents) -> Result<
    Seq<char>,
    Error,
> {
    match now_playing {
        None => Err(Error::NoTrackPlaying),
        Some(track) => match spec_playlist_status(contents, track.uri@) {
            Ok(marks) => Ok(spec_status_line(texts(track.artists@), track.name@, marks)),
            Err(error) => Err(error),
        },
    }
}

/// The status to show: the status line where there is one, the placeholder
/// where there is none.
pub open spec fn spec_shown_status(now_playing: Option<Track>, contents: Contents) -> Seq<char> {
    match spec_track_info(now_playing, contents) {
        Ok(line) => line,
        Err(_) => spec_placeholder(),
    }
}

/// The track behind a reference to what is playing.
pub open spec fn spec_owned(now_playing: Option<&Track>) -> Option<Track> {
    match now_playing {
        Some(track) => Some(*track),
        None => None,
    }
}

/// Whether `text` is the outcome `expected`.
pub open spec fn is_text_result(text: Result<String, Error>, expected: Result<Seq<char>, Error>) -> bool {
    match text {
        Ok(line) => expected == Ok::<Seq<char>, Error>(line@),
        Err(error) => expected == Err::<Seq<char>, Error>(error),
    }
}

/// Returns the marks of the track `track_uri`: `C` where the current loop
/// holds it, then `F` where the fresh vibrations hold it. Fails with
/// `PlaylistNotFetched` where one of the two lists has not been fetched.
pub fn playlist_status(track_lists: &TrackLists, track_uri: &String) -> (status: Result<
    String,
    Error,
>)
    ensures
        is_text_result(status, spec_playlist_status(track_lists@, track_uri@)),
{
    let current_loop = match track_lists.get(Playlist::CurrentLoop) {
        Some(tracks) => tracks,
        None => return Err(Error::PlaylistNotFetched),
    };
    let fresh_vibrations = match track_lists.get(Playlist::FreshVibrations) {
        Some(tracks) => tracks,
        None => return Err(Error::PlaylistNotFetched),
    };
    let mut status = String::new();
    if contains_text(current_loop, track_uri) {
        proof {
            reveal_strlit("C");
        }
        status.append("C");
        assert(status@ =~= seq!['C']);
    }
    if contains_text(fresh_vibrations, track_uri) {
        proof {
            reveal_strlit("F");
        }
        status.append("F");
    }
    assert(status@ =~= spec_marks(
        track_lists@[Playlist::CurrentLoop].contains(track_uri@),
        track_lists@[Playlist::FreshVibrations].contains(track_uri@),
    ));
    Ok(status)
}

/// Returns the parts of `parts`, in order, with `separator` between
/// neighbours.
pub fn join(parts: &Vec<String>, separator: &str) -> (joined: String)
    ensures
        joined@ == spec_joined(texts(parts@), separator@),
{
    let mut joined = String::new();
    let mut i: usize = 0;
    while i < parts.len()
        invariant
            i <= parts@.len(),
            joined@ == spec_joined(texts(parts@).take(i as int), separator@),
        decreases parts@.len() - i,
    {
        proof {
            let all = texts(parts@);
            assert(all.take(i + 1).drop_last() =~= all.take(i as int));
            assert(all.take(i + 1).last() == parts@[i as int]@);
            if i == 0 {
                assert(all.take(1)[0] == parts@[0]@);
            }
        }
        if i > 0 {
            joined.append(separator);
        }
        joined.append(parts[i].as_str());
        i += 1;
    }
    assert(texts(parts@).take(parts@.len() as int) =~= texts(parts@));
    joined
}

/// Returns the status line of what is playing: the artists, the name, and
/// the marks of the working lists that hold the track. Fails with
/// `NoTrackPlaying` where nothing is playing, and with `PlaylistNotFetched`
/// where a working list has not been fetched.
pub fn fetch_track_info(now_playing: Option<&Track>, track_lists: &TrackLists) -> (info: Result<
    String,
    Error,
>)
    ensures
        is_text_result(info, spec_track_info(spec_owned(now_playing), track_lists@)),
{
    let track = match now_playing {
        Some(track) => track,
        None => return Err(Error::NoTrackPlaying),
    };
    let marks = match playlist_status(track_lists, &track.uri) {
        Ok(marks) => marks,
        Err(error) => return Err(error),
    };
    proof {
        reveal_strlit(", ");
        reveal_strlit(" - ");
        reveal_strlit(" [");
        reveal_strlit("]");
        assert(", "@ =~= seq![',', ' ']);
        assert(" - "@ =~= seq![' ', '-', ' ']);
        assert(" ["@ =~= seq![' ', '[']);
        assert("]"@ =~= seq![']']);
    }
    let mut info = join(&track.artists, ", ");
    info.append(" - ");
    info.append(track.name.as_str());
    info.append(" [");
    info.append(marks.as_str());
    info.append("]");
    Ok(info)
}

/// Sets `track_info` to the status to show for what is playing: the status
/// line where there is one, the placeholder `-` where nothing is playing or
/// a working list has not been fetched.
pub fn update_track_info(
    now_playing: Option<&Track>,
    track_lists: &TrackLists,
    track_info: &mut String,
)
    ensures
        final(track_info)@ == spec_shown_status(spec_owned(now_playing), track_lists@),
{
    match fetch_track_info(now_playing, track_lists) {
        Ok(info) => {
            *track_info = info;
        },
        Err(_) => {
            proof {
                reveal_strlit("-");
                assert("-"@ =~= spec_placeholder());
            }
            *track_info = String::from_str("-");
        },
    }
}

} // verus!
