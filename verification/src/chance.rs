//! The one place where the game asks for randomness.

use crate::music::Note;
use rand::seq::SliceRandom;
use vstd::prelude::*;

verus! {

/// Shuffles `notes` in place with `rand::seq::SliceRandom::shuffle`, drawing
/// from the generator of the calling thread (`rand::thread_rng`), which is
/// seeded from the operating system when the thread first uses it.
///
/// Trusted, not proved: the shuffle only swaps elements of the slice, so
/// afterwards the same notes are there, each as often as before. Nothing is
/// claimed of their order, which differs from call to call.
#[verifier::external_body]
pub(crate) fn shuffle(notes: &mut Vec<Note>)
    ensures
        final(notes)@.to_multiset() == old(notes)@.to_multiset(),
{
    notes.shuffle(&mut rand::thread_rng());
}

} // verus!
