use shizu::errors::{resolution_error_message, UserInputError};
use shizu::model::{Playlist, QueuedTrack, Track, TrackMetadata};
use shizu::queue::PlayQueue;
use shizu::resolver::{classify_query, ResolveKind};
use shizu::shuffle::shuffled_for_import;
use shizu::utils::{
    now_playing_embed, playlist_add_track_embed, song_queued_embed, track_queue_content,
    u64_to_string,
};

fn meta(title: Option<&str>, thumb: Option<&str>) -> TrackMetadata {
    TrackMetadata::new(title.map(String::from), thumb.map(String::from), None)
}

#[test]
fn classify_query_decides_url_or_search() {
    assert!(matches!(classify_query(""), Err(UserInputError::EmptyQuery)));
    assert!(matches!(classify_query("https://x/y"), Ok(ResolveKind::ByUrl)));
    assert!(matches!(classify_query("http"), Ok(ResolveKind::ByUrl)));
    assert!(matches!(classify_query("lofi beats"), Ok(ResolveKind::BySearch)));
    assert!(matches!(classify_query("htt"), Ok(ResolveKind::BySearch)));
}

#[test]
fn validate_voice_target_requires_a_channel() {
    assert!(matches!(shizu::resolver::validate_voice_target(Some(42)), Ok(42)));
    assert!(matches!(
        shizu::resolver::validate_voice_target(None),
        Err(UserInputError::MissingVoiceChannel)
    ));
}

#[test]
fn error_messages_are_the_known_replies() {
    assert_eq!(
        UserInputError::EmptyQuery.message(),
        "necesito una palabra o un link de youtube  (\u{2022}\u{25e1}\u{2022}) /"
    );
    assert_eq!(
        UserInputError::MissingVoiceChannel.message(),
        "You need to be in a voice channel"
    );
    assert_eq!(
        UserInputError::DuplicatePlaylistName.message(),
        "Ya existe una playlist con ese nombre"
    );
    assert_eq!(
        resolution_error_message("no video found"),
        "\u{2267}\u{25c9}\u{25e1}\u{25c9}\u{2266} tuve un error interno: no video found"
    );
}

#[test]
fn decimal_rendering() {
    assert_eq!(u64_to_string(0), "0");
    assert_eq!(u64_to_string(7), "7");
    assert_eq!(u64_to_string(10), "10");
    assert_eq!(u64_to_string(42), "42");
    assert_eq!(u64_to_string(1234567890), "1234567890");
    assert_eq!(u64_to_string(u64::MAX), "18446744073709551615");
}

#[test]
fn now_playing_content() {
    let m = meta(Some("Song A"), Some("https://img/1"));
    let e = now_playing_embed(&m, "<@77>");
    assert_eq!(e.title, "Song A");
    assert_eq!(e.thumbnail, "https://img/1");
    assert_eq!(e.description, "[<@77>]");

    let bare = meta(None, None);
    let e2 = now_playing_embed(&bare, "<@77>");
    assert_eq!(e2.title, "No Name");
    assert_eq!(e2.thumbnail, "");
}

#[test]
fn song_queued_content() {
    let m = meta(Some("Song B"), None);
    let e = song_queued_embed(&m, 2);
    assert_eq!(e.title, "");
    assert_eq!(
        e.description,
        "**Song B** - agregada a la cola en posici\u{f3}n: 2"
    );

    let bare = meta(None, None);
    let e2 = song_queued_embed(&bare, 11);
    assert_eq!(
        e2.description,
        "**No name** - agregada a la cola en posici\u{f3}n: 11"
    );
}

#[test]
fn proposal_content_carries_display_metadata() {
    let m = meta(Some("Proposed"), Some("https://img/2"));
    let e = playlist_add_track_embed(&m);
    assert_eq!(e.title, "Proposed");
    assert_eq!(e.thumbnail, "https://img/2");
    assert_eq!(e.description, "");
}

#[test]
fn queue_listing_content() {
    let mut q = PlayQueue::new();
    q.enqueue(QueuedTrack::new(meta(Some("A"), None), 1, String::from("<@1>")));
    q.enqueue(QueuedTrack::new(meta(Some("B"), None), 1, String::from("<@2>")));
    q.enqueue(QueuedTrack::new(meta(None, None), 1, String::from("<@3>")));
    assert_eq!(
        track_queue_content(&q),
        "```go\n# | Nombre\n0 | A\n1 | B\n2 | No Name\n```"
    );
}

#[test]
fn empty_queue_listing_is_just_the_header() {
    let q = PlayQueue::new();
    assert_eq!(track_queue_content(&q), "```go\n# | Nombre\n```");
}

#[test]
fn queue_advance_from_front() {
    let mut q = PlayQueue::new();
    assert!(q.advance().is_none());
    q.enqueue(QueuedTrack::new(meta(Some("A"), None), 1, String::from("<@1>")));
    q.enqueue(QueuedTrack::new(meta(Some("B"), None), 1, String::from("<@2>")));
    let gone = q.advance().unwrap();
    assert_eq!(gone.metadata.title.as_deref(), Some("A"));
    assert_eq!(q.current().unwrap().metadata.title.as_deref(), Some("B"));
    assert_eq!(q.len(), 1);
}

#[test]
fn shuffle_keeps_exactly_the_same_tracks() {
    let queries = ["q0", "q1", "q2", "q3", "q4", "q5", "q6", "q7"];
    let tracks: Vec<Track> = queries
        .iter()
        .map(|q| Track::new(String::from(*q)))
        .collect();
    let shuffled = shuffled_for_import(tracks);
    assert_eq!(shuffled.len(), queries.len());
    let mut seen: Vec<String> = shuffled.iter().map(|t| t.query.clone()).collect();
    seen.sort();
    let mut expected: Vec<String> = queries.iter().map(|q| String::from(*q)).collect();
    expected.sort();
    assert_eq!(seen, expected);
}

#[test]
fn model_constructors() {
    let t = Track::new(String::from("some query"));
    assert_eq!(t.query, "some query");
    assert!(t.title.is_none());

    let p = Playlist::new(String::from("chill"), String::from("g1"));
    assert!(p.id.is_none());
    assert_eq!(p.name, "chill");
    assert_eq!(p.guild_id, "g1");
    assert!(p.tracks.is_empty());
}
