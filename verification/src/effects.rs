//! Requests that the game core hands to its collaborators: sounds to play
//! and animations to set. The core never plays or draws anything itself.

use crate::music::{Note, NOTE_COUNT};
use vstd::prelude::*;

verus! {

/// The animations an object can be asked to run.
#[derive(Debug, Clone, Copy, PartialEq, Eq, PartialOrd, Hash, Structural)]
pub enum AnimationId {
    Spawn,
    Idle,
    Move,
    Jump,
    Beat,
    Die,
    Hit,
    Land,
}

/// What an animation does when it reaches its end.
#[derive(Debug, Clone, Copy, PartialEq, Eq, Structural)]
pub enum EndControl {
    /// Hold the last frame.
    Stay,
    /// Start over, for ever.
    Loop,
    /// Run once and return to rest.
    Normal,
}

/// A sound, by its logical key.
#[derive(Debug, Clone, Copy, PartialEq, Eq, Structural)]
pub enum Sound {
    Jump,
    Tap,
    Miss,
    /// The clear tone of a pitch, heard while a win is played back.
    Note(Note),
    /// The dull tone of a pitch, heard when a ball lands during play.
    Foo(Note),
}

/// A request to make `id` the running animation of an object.
#[derive(Debug, Clone, Copy, PartialEq, Eq, Structural)]
pub struct AnimationRequest {
    pub id: AnimationId,
    pub end: EndControl,
}

/// The hue in which `note` is drawn, in degrees: the pitches of the scale are
/// spread evenly around the colour wheel.
pub open spec fn hue_of(note: Note) -> int {
    (360 * (note % NOTE_COUNT)) / (NOTE_COUNT as int)
}

/// The hue in which `note` is drawn, in degrees.
pub fn note_hue(note: Note) -> (hue: u32)
    ensures
        hue == hue_of(note),
        hue < 360,
{
    ((360 * (note % NOTE_COUNT)) / NOTE_COUNT) as u32
}

/// An animation on a track, by its id, and whether it is running.
pub type Track = (AnimationId, bool);

/// The test for a running animation other than `id`.
pub open spec fn runs_beside(id: AnimationId) -> spec_fn(Track) -> bool {
    |track: Track| track.1 && track.0 != id
}

/// The ids of the animations among `tracks` that are running and are not
/// `id`, in the order of `tracks`.
pub open spec fn others_running(tracks: Seq<Track>, id: AnimationId) -> Seq<AnimationId> {
    tracks.filter(runs_beside(id)).map_values(|track: Track| track.0)
}

/// The animations to abort before `id` is started, so that one animation at
/// most runs on a track: all that are running, but `id` itself.
pub fn animations_to_abort(tracks: &Vec<Track>, id: AnimationId) -> (abort: Vec<AnimationId>)
    ensures
        abort@ == others_running(tracks@, id),
{
    let ghost beside = runs_beside(id);
    let ghost name = |track: Track| track.0;
    let mut abort: Vec<AnimationId> = Vec::new();
    let mut k: usize = 0;
    while k < tracks.len()
        invariant
            k <= tracks.len(),
            beside == runs_beside(id),
            name == |track: Track| track.0,
            abort@ == tracks@.take(k as int).filter(beside).map_values(name),
        decreases tracks.len() - k,
    {
        proof {
            let before = tracks@.take(k as int);
            assert(tracks@.take(k + 1) =~= before.push(tracks@[k as int]));
            before.lemma_filter_push(tracks@[k as int], beside);
            assert(before.filter(beside).push(tracks@[k as int]).map_values(name)
                =~= before.filter(beside).map_values(name).push(tracks@[k as int].0));
        }
        if tracks[k].1 && tracks[k].0 != id {
            abort.push(tracks[k].0);
        }
        k = k + 1;
    }
    assert(tracks@.take(k as int) =~= tracks@);
    abort
}

/// The animation that is running on a track, if one is: the first of
/// `tracks` that runs.
pub fn active_animation(tracks: &Vec<Track>) -> (active: Option<AnimationId>)
    ensures
        match active {
            Some(id) => exists|k: int|
                0 <= k < tracks@.len() && #[trigger] tracks@[k] == (id, true) && forall|j: int|
                    0 <= j < k ==> !(#[trigger] tracks@[j]).1,
            None => forall|j: int| 0 <= j < tracks@.len() ==> !(#[trigger] tracks@[j]).1,
        },
{
    let mut k: usize = 0;
    while k < tracks.len()
        invariant
            k <= tracks.len(),
            forall|j: int| 0 <= j < k ==> !(#[trigger] tracks@[j]).1,
        decreases tracks.len() - k,
    {
        if tracks[k].1 {
            assert(tracks@[k as int] == (tracks@[k as int].0, true));
            return Some(tracks[k].0);
        }
        k = k + 1;
    }
    None
}

} // verus!
