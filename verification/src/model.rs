//! Core data model: track metadata produced by resolution, queued tracks,
//! stored playlist entries, and playlists.

use vstd::prelude::*;

verus! {

/// Metadata attached to a resolved track. Immutable once the track is queued.
pub struct TrackMetadata {
    /// Display title, when the resolver reported one.
    pub title: Option<String>,
    /// Thumbnail image location, when the resolver reported one.
    pub thumbnail: Option<String>,
    /// Canonical source location, when the resolver reported one.
    pub source_url: Option<String>,
}

/// Ghost image of [`TrackMetadata`]: each text field as a sequence of chars.
pub ghost struct TrackMetadataView {
    pub title: Option<Seq<char>>,
    pub thumbnail: Option<Seq<char>>,
    pub source_url: Option<Seq<char>>,
}

pub open spec fn opt_string_view(s: Option<String>) -> Option<Seq<char>> {
    match s {
        Some(t) => Some(t@),
        None => None,
    }
}

impl View for TrackMetadata {
    type V = TrackMetadataView;

    open spec fn view(&self) -> TrackMetadataView {
        TrackMetadataView {
            title: opt_string_view(self.title),
            thumbnail: opt_string_view(self.thumbnail),
            source_url: opt_string_view(self.source_url),
        }
    }
}

impl TrackMetadata {
    pub fn new(title: Option<String>, thumbnail: Option<String>, source_url: Option<String>) -> (m:
        TrackMetadata)
        ensures
            m.title == title,
            m.thumbnail == thumbnail,
            m.source_url == source_url,
    {
        TrackMetadata { title, thumbnail, source_url }
    }

    /// A copy equal to the original, field for field.
    pub fn duplicate(&self) -> (m: TrackMetadata)
        ensures
            m == *self,
    {
        TrackMetadata {
            title: clone_opt_string(&self.title),
            thumbnail: clone_opt_string(&self.thumbnail),
            source_url: clone_opt_string(&self.source_url),
        }
    }
}

/// A copy of an optional text, equal to the original.
pub fn clone_opt_string(s: &Option<String>) -> (r: Option<String>)
    ensures
        r == *s,
{
    match s {
        Some(t) => Some(t.clone()),
        None => None,
    }
}

/// A track sitting in a guild's play queue, owned by that guild's session.
pub struct QueuedTrack {
    /// Resolver metadata for the track.
    pub metadata: TrackMetadata,
    /// Text channel in which this track's completion is announced.
    pub announce_channel_id: u64,
    /// Mention text of the user who requested the track.
    pub requested_by: String,
}

impl QueuedTrack {
    pub fn new(metadata: TrackMetadata, announce_channel_id: u64, requested_by: String) -> (t:
        QueuedTrack)
        ensures
            t.metadata == metadata,
            t.announce_channel_id == announce_channel_id,
            t.requested_by == requested_by,
    {
        QueuedTrack { metadata, announce_channel_id, requested_by }
    }
}

/// A lazily resolved reference stored inside a playlist: the query or
/// location text to resolve at playback time, plus an optional title.
pub struct Track {
    /// Query text or source location to resolve at playback time.
    pub query: String,
    /// Display title recorded when the track was added, if any.
    pub title: Option<String>,
}

impl Track {
    pub fn new(query: String) -> (t: Track)
        ensures
            t.query == query,
            t.title is None,
    {
        Track { query, title: None }
    }

    /// A stored reference built from resolved metadata: the canonical source
    /// location when the resolver reported one, otherwise the original query
    /// text; the resolved title is kept alongside.
    pub fn from_resolved(query: String, metadata: &TrackMetadata) -> (t: Track)
        ensures
            t.query == (if metadata.source_url is Some {
                metadata.source_url->0
            } else {
                query
            }),
            t.title == metadata.title,
    {
        let query = match &metadata.source_url {
            Some(u) => u.clone(),
            None => query,
        };
        Track { query, title: clone_opt_string(&metadata.title) }
    }

    /// A copy equal to the original, field for field.
    pub fn duplicate(&self) -> (t: Track)
        ensures
            t == *self,
    {
        Track { query: self.query.clone(), title: clone_opt_string(&self.title) }
    }
}

/// A named, per-guild playlist of stored track references.
pub struct Playlist {
    /// Storage-assigned identifier; absent until the store accepts it.
    pub id: Option<u64>,
    /// Playlist name; unique within its guild.
    pub name: String,
    /// Guild the playlist belongs to.
    pub guild_id: String,
    /// Stored track references, in insertion order.
    pub tracks: Vec<Track>,
}

/// Ghost image of a [`Playlist`]: texts as sequences of chars.
pub ghost struct PlaylistView {
    pub id: Option<u64>,
    pub name: Seq<char>,
    pub guild_id: Seq<char>,
    pub tracks: Seq<Track>,
}

impl View for Playlist {
    type V = PlaylistView;

    open spec fn view(&self) -> PlaylistView {
        PlaylistView {
            id: self.id,
            name: self.name@,
            guild_id: self.guild_id@,
            tracks: self.tracks@,
        }
    }
}

impl Playlist {
    pub fn new(name: String, guild_id: String) -> (p: Playlist)
        ensures
            p.id is None,
            p.name == name,
            p.guild_id == guild_id,
            p.tracks@ == Seq::<Track>::empty(),
    {
        Playlist { id: None, name, guild_id, tracks: Vec::new() }
    }
}

} // verus!
