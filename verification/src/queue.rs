//! The ordered play queue of one guild: append at the back, the front is the
//! track currently sounding, removal happens only at the front.

use vstd::prelude::*;

use crate::model::QueuedTrack;

verus! {

/// Ordered sequence of queued tracks for one guild. The element at index 0,
/// when present, is the track currently playing or about to play.
pub struct PlayQueue {
    tracks: Vec<QueuedTrack>,
}

impl View for PlayQueue {
    type V = Seq<QueuedTrack>;

    closed spec fn view(&self) -> Seq<QueuedTrack> {
        self.tracks@
    }
}

impl PlayQueue {
    pub fn new() -> (q: PlayQueue)
        ensures
            q@ == Seq::<QueuedTrack>::empty(),
    {
        PlayQueue { tracks: Vec::new() }
    }

    pub fn len(&self) -> (n: usize)
        ensures
            n == self@.len(),
    {
        self.tracks.len()
    }

    pub fn is_empty(&self) -> (b: bool)
        ensures
            b == (self@.len() == 0),
    {
        self.tracks.len() == 0
    }

    /// Appends a track at the back of the queue.
    pub fn enqueue(&mut self, t: QueuedTrack)
        requires
            old(self)@.len() < usize::MAX,
        ensures
            final(self)@ == old(self)@.push(t),
    {
        self.tracks.push(t);
    }

    /// The track currently at the front, if any.
    pub fn current(&self) -> (r: Option<&QueuedTrack>)
        ensures
            match r {
                Some(t) => self@.len() > 0 && *t == self@[0],
                None => self@.len() == 0,
            },
    {
        if self.tracks.len() == 0 {
            None
        } else {
            Some(&self.tracks[0])
        }
    }

    /// The track at the given position, front first.
    pub fn get(&self, i: usize) -> (r: &QueuedTrack)
        requires
            i < self@.len(),
        ensures
            *r == self@[i as int],
    {
        &self.tracks[i]
    }

    /// Removes the front track, if any, and returns it; the remaining tracks
    /// keep their order, so the previous second track becomes current.
    pub fn advance(&mut self) -> (removed: Option<QueuedTrack>)
        ensures
            old(self)@.len() == 0 ==> final(self)@ == old(self)@ && removed is None,
            old(self)@.len() > 0 ==> final(self)@ == old(self)@.drop_first() && removed == Some(
                old(self)@[0],
            ),
    {
        if self.tracks.len() == 0 {
            None
        } else {
            let t = self.tracks.remove(0);
            proof {
                assert(self@ =~= old(self)@.drop_first());
            }
            Some(t)
        }
    }
}

} // verus!
