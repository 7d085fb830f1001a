use shizu::confirm::{
    classify_reaction, conclude, ConfirmationVote, ReactionChoice, VoteEvent, VoteOutcome,
    CONFIRMATION_TIMEOUT_SECS,
};
use shizu::errors::UserInputError;
use shizu::model::{Track, TrackMetadata};
use shizu::store::{PlaylistStore, StoreError};

fn meta(title: Option<&str>, url: Option<&str>) -> TrackMetadata {
    TrackMetadata::new(
        title.map(String::from),
        None,
        url.map(String::from),
    )
}

#[test]
fn create_rejects_duplicate_pair_only() {
    let mut store = PlaylistStore::new();
    let id = store.create(String::from("chill"), String::from("g1")).unwrap();
    assert_eq!(id, 0);

    // Same (name, guild) pair: refused.
    assert!(matches!(
        store.create(String::from("chill"), String::from("g1")),
        Err(StoreError::AlreadyExists)
    ));

    // Same name in another guild, and another name in the same guild: both new pairs succeed.
    assert_eq!(store.create(String::from("chill"), String::from("g2")).unwrap(), 1);
    assert_eq!(store.create(String::from("study"), String::from("g1")).unwrap(), 2);
}

#[test]
fn find_is_scoped_by_guild() {
    let mut store = PlaylistStore::new();
    store.create(String::from("chill"), String::from("g1")).unwrap();
    assert!(store.find_by_name(&String::from("chill"), &String::from("g1")).is_some());
    assert!(store.find_by_name(&String::from("chill"), &String::from("g2")).is_none());
    assert!(store.find_by_name(&String::from("study"), &String::from("g1")).is_none());
}

#[test]
fn scenario_add_to_missing_playlist() {
    // Playlist "chill" does not exist in the guild: the command replies that
    // it was not found, and nothing is written.
    let store = PlaylistStore::new();
    assert!(store.find_by_name(&String::from("chill"), &String::from("g1")).is_none());
    assert_eq!(
        UserInputError::PlaylistNotFound.message(),
        "No se encontr\u{f3} una playlist con ese nombre en este servidor"
    );
    assert!(store.list_by_guild(&String::from("g1")).is_empty());
}

#[test]
fn list_by_guild_keeps_storage_order() {
    let mut store = PlaylistStore::new();
    store.create(String::from("a"), String::from("g1")).unwrap();
    store.create(String::from("b"), String::from("g2")).unwrap();
    store.create(String::from("c"), String::from("g1")).unwrap();
    let names = store.list_by_guild(&String::from("g1"));
    assert_eq!(names, vec![String::from("a"), String::from("c")]);
}

#[test]
fn append_track_touches_one_playlist() {
    let mut store = PlaylistStore::new();
    let id_a = store.create(String::from("a"), String::from("g1")).unwrap();
    let id_b = store.create(String::from("b"), String::from("g1")).unwrap();
    store.append_track(id_a, Track::new(String::from("https://x/1"))).unwrap();
    let a = store.find_by_name(&String::from("a"), &String::from("g1")).unwrap();
    assert_eq!(a.tracks.len(), 1);
    assert_eq!(a.tracks[0].query, "https://x/1");
    let b = store.find_by_name(&String::from("b"), &String::from("g1")).unwrap();
    assert!(b.tracks.is_empty());
    let _ = id_b;
}

#[test]
fn append_track_unknown_id_is_not_found() {
    let mut store = PlaylistStore::new();
    assert!(matches!(
        store.append_track(5, Track::new(String::from("q"))),
        Err(StoreError::NotFound)
    ));
}

#[test]
fn reaction_mapping_is_closed() {
    assert!(matches!(classify_reaction("\u{2705}"), Some(ReactionChoice::Accept)));
    assert!(matches!(classify_reaction("\u{274c}"), Some(ReactionChoice::Reject)));
    assert!(classify_reaction("x").is_none());
    assert!(classify_reaction("").is_none());
    assert!(classify_reaction("\u{2705}\u{2705}").is_none());
}

#[test]
fn confirmation_accept_appends_preferring_source_url() {
    let mut vote = ConfirmationVote::new(900, 17, 1000);
    assert_eq!(vote.deadline, 1000 + CONFIRMATION_TIMEOUT_SECS);
    let resolved = vote.observe(&VoteEvent::Reaction {
        author_id: 17,
        emoji: String::from("\u{2705}"),
        at: 1030,
    });
    assert!(resolved);
    assert!(matches!(vote.outcome, VoteOutcome::Accepted));

    let m = meta(Some("Song"), Some("https://canonical/u"));
    let conclusion = conclude(&vote.outcome, String::from("song query"), &m);
    assert!(conclusion.remove_proposal);
    let t = conclusion.append.unwrap();
    assert_eq!(t.query, "https://canonical/u");
    assert_eq!(t.title.as_deref(), Some("Song"));

    // Without a canonical location, the raw query text is stored.
    let m2 = meta(Some("Song"), None);
    let t2 = conclude(&vote.outcome, String::from("song query"), &m2).append.unwrap();
    assert_eq!(t2.query, "song query");
}

#[test]
fn confirmation_reject_discards() {
    let mut vote = ConfirmationVote::new(900, 17, 1000);
    let resolved = vote.observe(&VoteEvent::Reaction {
        author_id: 17,
        emoji: String::from("\u{274c}"),
        at: 1001,
    });
    assert!(resolved);
    assert!(matches!(vote.outcome, VoteOutcome::Rejected));
    let m = meta(Some("Song"), Some("https://canonical/u"));
    let conclusion = conclude(&vote.outcome, String::from("q"), &m);
    assert!(conclusion.append.is_none());
    assert!(conclusion.remove_proposal);
}

#[test]
fn confirmation_ignores_other_users_and_unknown_reactions() {
    let mut vote = ConfirmationVote::new(900, 17, 1000);

    // Another participant's accept is ignored: still pending.
    let resolved = vote.observe(&VoteEvent::Reaction {
        author_id: 99,
        emoji: String::from("\u{2705}"),
        at: 1005,
    });
    assert!(!resolved);
    assert!(matches!(vote.outcome, VoteOutcome::Pending));

    // The requester's unmapped reaction is ignored too.
    let resolved = vote.observe(&VoteEvent::Reaction {
        author_id: 17,
        emoji: String::from("??"),
        at: 1010,
    });
    assert!(!resolved);
    assert!(matches!(vote.outcome, VoteOutcome::Pending));

    // The requester's reject then resolves it.
    let resolved = vote.observe(&VoteEvent::Reaction {
        author_id: 17,
        emoji: String::from("\u{274c}"),
        at: 1015,
    });
    assert!(resolved);
    assert!(matches!(vote.outcome, VoteOutcome::Rejected));
}

#[test]
fn scenario_confirmation_expires() {
    // Proposal posted, no reaction within the timeout: expired, nothing
    // appended, proposal removed.
    let mut vote = ConfirmationVote::new(900, 17, 1000);
    let resolved = vote.observe(&VoteEvent::DeadlineElapsed);
    assert!(resolved);
    assert!(matches!(vote.outcome, VoteOutcome::Expired));
    let m = meta(Some("Song"), Some("https://canonical/u"));
    let conclusion = conclude(&vote.outcome, String::from("q"), &m);
    assert!(conclusion.append.is_none());
    assert!(conclusion.remove_proposal);
}

#[test]
fn confirmation_late_reaction_expires() {
    let mut vote = ConfirmationVote::new(900, 17, 1000);
    let deadline = vote.deadline;
    let resolved = vote.observe(&VoteEvent::Reaction {
        author_id: 17,
        emoji: String::from("\u{2705}"),
        at: deadline + 1,
    });
    assert!(resolved);
    assert!(matches!(vote.outcome, VoteOutcome::Expired));
}

#[test]
fn accepted_track_lands_in_store() {
    let mut store = PlaylistStore::new();
    let id = store.create(String::from("chill"), String::from("g1")).unwrap();

    let mut vote = ConfirmationVote::new(900, 17, 1000);
    vote.observe(&VoteEvent::Reaction {
        author_id: 17,
        emoji: String::from("\u{2705}"),
        at: 1001,
    });
    let m = meta(Some("Song"), Some("https://canonical/u"));
    let conclusion = conclude(&vote.outcome, String::from("song query"), &m);
    store.append_track(id, conclusion.append.unwrap()).unwrap();

    let p = store.find_by_name(&String::from("chill"), &String::from("g1")).unwrap();
    assert_eq!(p.tracks.len(), 1);
    assert_eq!(p.tracks[0].query, "https://canonical/u");
    assert_eq!(p.tracks[0].title.as_deref(), Some("Song"));
}
