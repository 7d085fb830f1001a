//! The uniform shuffle applied to a playlist's stored tracks before they are
//! imported into the live queue. Shuffling happens here, on the loaded list;
//! the live queue itself is never reordered.

use vstd::prelude::*;

use rand::seq::SliceRandom;

use crate::model::Track;

verus! {

/// Relies on rand's `SliceRandom::shuffle` with the thread-local generator:
/// a Fisher-Yates pass that permutes the slice in place by swaps, so exactly
/// the original elements remain; which order they land in depends on the
/// generator's state, so no more is stated.
#[verifier::external_body]
fn shuffle_in_place(tracks: &mut Vec<Track>)
    ensures
        final(tracks)@.to_multiset() == old(tracks)@.to_multiset(),
{
    tracks.shuffle(&mut rand::thread_rng());
}

/// The import order of a playlist's stored tracks: a permutation drawn
/// before any track is resolved or enqueued. Exactly the given tracks come
/// back, as many as went in.
pub fn shuffled_for_import(tracks: Vec<Track>) -> (r: Vec<Track>)
    ensures
        r@.to_multiset() == tracks@.to_multiset(),
        r@.len() == tracks@.len(),
{
    let mut v = tracks;
    let ghost before = v@;
    shuffle_in_place(&mut v);
    proof {
        before.to_multiset_ensures();
        v@.to_multiset_ensures();
    }
    v
}

} // verus!
