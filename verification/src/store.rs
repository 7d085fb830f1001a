//! The persistence boundary for named, per-guild playlists.
//!
//! This is the in-memory model of the playlist collection: every operation is
//! scoped by guild, the (name, guild) pair is unique among stored playlists,
//! and appending a track touches exactly one stored document. A driver that
//! keeps the documents in an external store mirrors each mutation through
//! these methods, so the rules proved here are the rules of the collection.

use vstd::prelude::*;

use crate::model::{Playlist, PlaylistView, Track};

verus! {

/// Why a store operation was refused.
#[derive(Debug)]
pub enum StoreError {
    /// A playlist with the same (name, guild) pair is already stored.
    AlreadyExists,
    /// No stored playlist carries the given identifier.
    NotFound,
}

/// Whether some stored playlist carries this (name, guild) pair.
pub open spec fn spec_has_pair(ps: Seq<PlaylistView>, name: Seq<char>, guild: Seq<char>) -> bool {
    exists|i: int| 0 <= i < ps.len() && ps[i].name == name && ps[i].guild_id == guild
}

/// Whether some stored playlist carries this storage identifier.
pub open spec fn spec_has_id(ps: Seq<PlaylistView>, id: u64) -> bool {
    exists|i: int| 0 <= i < ps.len() && ps[i].id == Some(id)
}

/// The names of the guild's stored playlists, in storage order.
pub open spec fn guild_names(ps: Seq<PlaylistView>, guild: Seq<char>) -> Seq<Seq<char>>
    decreases ps.len(),
{
    if ps.len() == 0 {
        Seq::empty()
    } else {
        let rest = guild_names(ps.drop_last(), guild);
        if ps.last().guild_id == guild {
            rest.push(ps.last().name)
        } else {
            rest
        }
    }
}

/// Ordered collection of stored playlists. Identifiers are storage-assigned:
/// the playlist at position `i` carries identifier `i`, so identifiers are
/// unique and stable (nothing in scope deletes a playlist).
pub struct PlaylistStore {
    playlists: Vec<Playlist>,
}

impl View for PlaylistStore {
    type V = Seq<PlaylistView>;

    closed spec fn view(&self) -> Seq<PlaylistView> {
        self.playlists@.map_values(|p: Playlist| p@)
    }
}

impl PlaylistStore {
    /// Well-formedness: positions assign identifiers, and the (name, guild)
    /// pair is unique among stored playlists.
    pub closed spec fn inv(&self) -> bool {
        &&& forall|i: int| 0 <= i < self@.len() ==> (#[trigger] self@[i].id) == Some(i as u64)
        &&& forall|i: int, j: int|
            0 <= i < j < self@.len() ==> !((#[trigger] self@[i]).name == (#[trigger] self@[j]).name
                && self@[i].guild_id == self@[j].guild_id)
    }

    pub fn new() -> (r: PlaylistStore)
        ensures
            r@ == Seq::<PlaylistView>::empty(),
            r.inv(),
    {
        let r = PlaylistStore { playlists: Vec::new() };
        proof {
            assert(r@ =~= Seq::<PlaylistView>::empty());
        }
        r
    }

    /// Position of the playlist with this (name, guild) pair, if stored.
    fn find_index(&self, name: &String, guild_id: &String) -> (r: Option<usize>)
        ensures
            r is Some <==> spec_has_pair(self@, name@, guild_id@),
            r matches Some(i) ==> i < self@.len() && self@[i as int].name == name@
                && self@[i as int].guild_id == guild_id@,
    {
        let n = self.playlists.len();
        let mut i: usize = 0;
        while i < n
            invariant
                i <= n == self.playlists.len(),
                forall|j: int|
                    0 <= j < i ==> !((#[trigger] self@[j]).name == name@ && self@[j].guild_id
                        == guild_id@),
            decreases n - i,
        {
            if self.playlists[i].name == *name && self.playlists[i].guild_id == *guild_id {
                return Some(i);
            }
            i += 1;
        }
        None
    }

    /// Creates an empty playlist under this (name, guild) pair. Refused with
    /// `AlreadyExists` exactly when the pair is already stored; otherwise the
    /// new playlist is appended, with the next storage identifier assigned,
    /// and every other stored playlist is untouched.
    pub fn create(&mut self, name: String, guild_id: String) -> (r: Result<u64, StoreError>)
        requires
            old(self).inv(),
        ensures
            final(self).inv(),
            r is Err <==> spec_has_pair(old(self)@, name@, guild_id@),
            r matches Err(e) ==> e is AlreadyExists && final(self)@ == old(self)@,
            r matches Ok(id) ==> id == old(self)@.len() as u64 && (final(self)@ == old(self)@.push(
                PlaylistView {
                    id: Some(old(self)@.len() as u64),
                    name: name@,
                    guild_id: guild_id@,
                    tracks: Seq::empty(),
                },
            )),
    {
        match self.find_index(&name, &guild_id) {
            Some(_) => Err(StoreError::AlreadyExists),
            None => {
                let id = self.playlists.len() as u64;
                let mut p = Playlist::new(name, guild_id);
                p.id = Some(id);
                self.playlists.push(p);
                proof {
                    assert(self@ =~~= old(self)@.push(
                        PlaylistView {
                            id: Some(old(self)@.len() as u64),
                            name: p.name@,
                            guild_id: p.guild_id@,
                            tracks: Seq::empty(),
                        },
                    ));
                }
                Ok(id)
            },
        }
    }

    /// The playlist stored under this (name, guild) pair, if any. Only the
    /// guild's own playlists are visible: a pair stored by another guild is
    /// never returned.
    pub fn find_by_name(&self, name: &String, guild_id: &String) -> (r: Option<&Playlist>)
        requires
            self.inv(),
        ensures
            r is Some <==> spec_has_pair(self@, name@, guild_id@),
            r matches Some(p) ==> p@.name == name@ && p@.guild_id == guild_id@ && (
            p@.id matches Some(id) && id < self@.len() && self@[id as int] == p@),
    {
        match self.find_index(name, guild_id) {
            Some(i) => Some(&self.playlists[i]),
            None => None,
        }
    }

    /// The names of the guild's stored playlists, in storage order.
    pub fn list_by_guild(&self, guild_id: &String) -> (r: Vec<String>)
        ensures
            r.deep_view() == guild_names(self@, guild_id@),
    {
        let mut out: Vec<String> = Vec::new();
        let n = self.playlists.len();
        let mut i: usize = 0;
        proof {
            assert(self@.take(0) =~= Seq::<PlaylistView>::empty());
            assert(out.deep_view() =~= guild_names(self@.take(0), guild_id@));
        }
        while i < n
            invariant
                i <= n == self.playlists.len(),
                out.deep_view() == guild_names(self@.take(i as int), guild_id@),
            decreases n - i,
        {
            let ghost prefix = self@.take(i as int);
            if self.playlists[i].guild_id == *guild_id {
                out.push(self.playlists[i].name.clone());
            }
            proof {
                assert(self@.take(i + 1 as int).drop_last() =~= prefix);
                assert(self@.take(i + 1 as int).last() == self@[i as int]);
                assert(out.deep_view() =~= guild_names(self@.take(i + 1 as int), guild_id@));
            }
            i += 1;
        }
        proof {
            assert(self@.take(n as int) =~= self@);
        }
        out
    }

    /// Appends a stored track reference to the identified playlist, touching
    /// nothing else. Refused with `NotFound` exactly when no stored playlist
    /// carries the identifier.
    pub fn append_track(&mut self, playlist_id: u64, track: Track) -> (r: Result<(), StoreError>)
        requires
            old(self).inv(),
        ensures
            final(self).inv(),
            r is Ok <==> spec_has_id(old(self)@, playlist_id),
            r matches Err(e) ==> e is NotFound && final(self)@ == old(self)@,
            r is Ok ==> final(self)@ == old(self)@.update(
                playlist_id as int,
                PlaylistView {
                    id: old(self)@[playlist_id as int].id,
                    name: old(self)@[playlist_id as int].name,
                    guild_id: old(self)@[playlist_id as int].guild_id,
                    tracks: old(self)@[playlist_id as int].tracks.push(track),
                },
            ),
    {
        if playlist_id < self.playlists.len() as u64 {
            let i = playlist_id as usize;
            let mut p = self.playlists.remove(i);
            p.tracks.push(track);
            self.playlists.insert(i, p);
            proof {
                assert(spec_has_id(old(self)@, playlist_id));
                assert(self@ =~~= old(self)@.update(
                    playlist_id as int,
                    PlaylistView {
                        id: old(self)@[playlist_id as int].id,
                        name: old(self)@[playlist_id as int].name,
                        guild_id: old(self)@[playlist_id as int].guild_id,
                        tracks: old(self)@[playlist_id as int].tracks.push(track),
                    },
                ));
            }
            Ok(())
        } else {
            proof {
                if spec_has_id(self@, playlist_id) {
                    let i = choose|i: int|
                        0 <= i < self@.len() && self@[i].id == Some(playlist_id);
                    assert(self@[i].id == Some(i as u64));
                }
            }
            Err(StoreError::NotFound)
        }
    }
}

} // verus!
