//! Moving the playing track between playlists: which requests to the
//! service a move consists of, in which order.

use vstd::prelude::*;
use crate::error::Error;
use crate::playlist::Playlist;
use crate::track_info::Track;

verus! {

/// One step of moving the playing track.
#[derive(Clone, Copy, Debug, PartialEq, Eq, Structural)]
pub enum SwitchOp {
    /// Take the track out of `playlist`.
    RemoveFrom { playlist: Playlist },
    /// Save the track to the library.
    SaveTrack,
    /// Put the track on `playlist`.
    AddTo { playlist: Playlist },
    /// Ask the daemon to refresh its track lists.
    SignalRefresh,
}

/// The steps that take the track out of the fresh vibrations.
pub open spec fn spec_removal() -> Seq<SwitchOp> {
    seq![SwitchOp::RemoveFrom { playlist: Playlist::FreshVibrations }, SwitchOp::SignalRefresh]
}

/// The steps that move the track to `destination`: it is saved and put on
/// the destination, and it leaves the current loop, unless that is where it
/// goes, and the fresh vibrations.
pub open spec fn spec_move_to(destination: Playlist) -> Seq<SwitchOp> {
    seq![SwitchOp::SaveTrack, SwitchOp::AddTo { playlist: destination }] + (if destination
        != Playlist::CurrentLoop {
        seq![SwitchOp::RemoveFrom { playlist: Playlist::CurrentLoop }]
    } else {
        Seq::empty()
    }) + seq![
        SwitchOp::RemoveFrom { playlist: Playlist::FreshVibrations },
        SwitchOp::SignalRefresh,
    ]
}

/// The steps of a switch: the removal, where it is asked for, and then the
/// move, where there is a destination.
pub open spec fn spec_switch(destination: Option<Playlist>, remove: bool) -> Seq<SwitchOp> {
    (if remove {
        spec_removal()
    } else {
        Seq::empty()
    }) + (match destination {
        Some(destination) => spec_move_to(destination),
        None => Seq::empty(),
    })
}

/// Returns the steps that switch the playing track, to be taken in order
/// and given up at the first that fails. Fails with `NoTrackPlaying` where
/// no track plays.
pub fn to_playlist(
    now_playing: Option<&Track>,
    destination: Option<Playlist>,
    remove: bool,
) -> (steps: Result<Vec<SwitchOp>, Error>)
    ensures
        match steps {
            Ok(steps) => now_playing is Some && steps@ == spec_switch(destination, remove),
            Err(error) => now_playing is None && error == Error::NoTrackPlaying,
        },
{
    if now_playing.is_none() {
        return Err(Error::NoTrackPlaying);
    }
    let mut steps: Vec<SwitchOp> = Vec::new();
    if remove {
        steps.push(SwitchOp::RemoveFrom { playlist: Playlist::FreshVibrations });
        steps.push(SwitchOp::SignalRefresh);
    }
    match destination {
        Some(playlist) => {
            steps.push(SwitchOp::SaveTrack);
            steps.push(SwitchOp::AddTo { playlist });
            if playlist != Playlist::CurrentLoop {
                steps.push(SwitchOp::RemoveFrom { playlist: Playlist::CurrentLoop });
            }
            steps.push(SwitchOp::RemoveFrom { playlist: Playlist::FreshVibrations });
            steps.push(SwitchOp::SignalRefresh);
        },
        None => {},
    }
    assert(steps@ =~= spec_switch(destination, remove));
    Ok(steps)
}

} // verus!
