//! The confirmation-gated playlist edit: a proposed track is appended only
//! after the requesting user accepts it before a fixed deadline.
//!
//! The wait itself (timers, reaction delivery) is the driver's work; the
//! decisions live here. Each observed event moves a pending vote to its next
//! outcome, the deadline event never leaves it pending, and every conclusion
//! removes the proposal message.

use vstd::prelude::*;

use crate::model::{Track, TrackMetadata};

verus! {

/// Seconds the requesting user has to react to a proposal.
pub const CONFIRMATION_TIMEOUT_SECS: u64 = 60;

/// The closed set of reaction meanings a proposal understands. Any reaction
/// that maps to neither is ignored.
pub enum ReactionChoice {
    Accept,
    Reject,
}

/// How a confirmation vote stands.
pub enum VoteOutcome {
    /// Still waiting for the requesting user or the deadline.
    Pending,
    /// The requesting user accepted before the deadline.
    Accepted,
    /// The requesting user rejected before the deadline.
    Rejected,
    /// The deadline passed without a matching reaction.
    Expired,
}

/// An event the driver observed while a proposal was pending.
pub enum VoteEvent {
    /// Someone reacted to the proposal message at instant `at`.
    Reaction { author_id: u64, emoji: String, at: u64 },
    /// The configured deadline elapsed with no matching reaction.
    DeadlineElapsed,
}

/// The meaning of a reaction's rendered form: a white heavy check mark
/// accepts, a cross mark rejects, everything else is ignored.
pub open spec fn spec_classify(s: Seq<char>) -> Option<ReactionChoice> {
    if s.len() == 1 && s[0] == '\u{2705}' {
        Some(ReactionChoice::Accept)
    } else if s.len() == 1 && s[0] == '\u{274c}' {
        Some(ReactionChoice::Reject)
    } else {
        None
    }
}

/// Maps a reaction's rendered form to the closed choice set.
pub fn classify_reaction(emoji: &str) -> (r: Option<ReactionChoice>)
    ensures
        r == spec_classify(emoji@),
{
    if emoji.unicode_len() == 1 {
        let c = emoji.get_char(0);
        if c == '\u{2705}' {
            Some(ReactionChoice::Accept)
        } else if c == '\u{274c}' {
            Some(ReactionChoice::Reject)
        } else {
            None
        }
    } else {
        None
    }
}

/// The outcome a pending vote moves to on one observed event. Only the
/// original requester's reaction counts, and only before the deadline; a
/// reaction that maps to no choice leaves the vote pending.
pub open spec fn spec_vote_step(author_id: u64, deadline: u64, ev: VoteEvent) -> VoteOutcome {
    match ev {
        VoteEvent::DeadlineElapsed => VoteOutcome::Expired,
        VoteEvent::Reaction { author_id: reactor, emoji, at } => {
            if at > deadline {
                VoteOutcome::Expired
            } else if reactor != author_id {
                VoteOutcome::Pending
            } else {
                match spec_classify(emoji@) {
                    Some(ReactionChoice::Accept) => VoteOutcome::Accepted,
                    Some(ReactionChoice::Reject) => VoteOutcome::Rejected,
                    None => VoteOutcome::Pending,
                }
            }
        },
    }
}

/// One guild member's pending confirmation of one proposed playlist track.
pub struct ConfirmationVote {
    /// Message carrying the proposal and its reaction affordances.
    pub proposal_message_id: u64,
    /// The requesting user; only this identity's reactions are honored.
    pub author_id: u64,
    /// Instant after which the vote expires.
    pub deadline: u64,
    /// Where the vote stands.
    pub outcome: VoteOutcome,
}

impl ConfirmationVote {
    /// Opens a vote on a freshly posted proposal, due a fixed number of
    /// seconds from `now`.
    pub fn new(proposal_message_id: u64, author_id: u64, now: u64) -> (v: ConfirmationVote)
        requires
            now <= u64::MAX - CONFIRMATION_TIMEOUT_SECS,
        ensures
            v.proposal_message_id == proposal_message_id,
            v.author_id == author_id,
            v.deadline == now + CONFIRMATION_TIMEOUT_SECS,
            v.outcome is Pending,
    {
        ConfirmationVote {
            proposal_message_id,
            author_id,
            deadline: now + CONFIRMATION_TIMEOUT_SECS,
            outcome: VoteOutcome::Pending,
        }
    }

    /// Feeds one observed event to a pending vote, reporting whether the
    /// vote is now resolved. The deadline event always resolves it, so the
    /// wait never outlives the configured timeout.
    pub fn observe(&mut self, ev: &VoteEvent) -> (resolved: bool)
        requires
            old(self).outcome is Pending,
        ensures
            final(self).proposal_message_id == old(self).proposal_message_id,
            final(self).author_id == old(self).author_id,
            final(self).deadline == old(self).deadline,
            final(self).outcome == spec_vote_step(old(self).author_id, old(self).deadline, *ev),
            resolved == !(final(self).outcome is Pending),
            ev is DeadlineElapsed ==> resolved,
    {
        let next = match ev {
            VoteEvent::DeadlineElapsed => VoteOutcome::Expired,
            VoteEvent::Reaction { author_id: reactor, emoji, at } => {
                if *at > self.deadline {
                    VoteOutcome::Expired
                } else if *reactor != self.author_id {
                    VoteOutcome::Pending
                } else {
                    match classify_reaction(emoji.as_str()) {
                        Some(ReactionChoice::Accept) => VoteOutcome::Accepted,
                        Some(ReactionChoice::Reject) => VoteOutcome::Rejected,
                        None => VoteOutcome::Pending,
                    }
                }
            },
        };
        let resolved = !matches!(next, VoteOutcome::Pending);
        self.outcome = next;
        resolved
    }
}

/// What the driver must do once a vote resolves.
pub struct FlowConclusion {
    /// The stored reference to append, present exactly on acceptance.
    pub append: Option<Track>,
    /// The proposal message is removed in every outcome, so stale prompts
    /// never accumulate.
    pub remove_proposal: bool,
}

/// Concludes a resolved vote: on acceptance the stored reference is built
/// from the resolved metadata (canonical source location preferred over the
/// query text, resolved title kept); on rejection or expiry nothing is
/// stored. The proposal message is removed whatever the outcome.
pub fn conclude(outcome: &VoteOutcome, query: String, metadata: &TrackMetadata) -> (r:
    FlowConclusion)
    requires
        !(outcome is Pending),
    ensures
        r.remove_proposal,
        outcome is Accepted <==> r.append is Some,
        outcome is Accepted ==> (r.append matches Some(t) && t.query == (
        if metadata.source_url is Some {
            metadata.source_url->0
        } else {
            query
        }) && t.title == metadata.title),
{
    let append = match outcome {
        VoteOutcome::Accepted => Some(Track::from_resolved(query, metadata)),
        _ => None,
    };
    FlowConclusion { append, remove_proposal: true }
}

/// The confirmation flow is time-bounded and leak-free: whatever the
/// requester does, the deadline event resolves the vote (as `Expired`), an
/// event stamped after the deadline never resolves it any other way, and a
/// reaction from anyone but the requester changes nothing.
pub proof fn lemma_confirmation_terminates(author_id: u64, deadline: u64, ev: VoteEvent)
    ensures
        !(spec_vote_step(author_id, deadline, VoteEvent::DeadlineElapsed) is Pending),
        spec_vote_step(author_id, deadline, VoteEvent::DeadlineElapsed) is Expired,
        (ev matches VoteEvent::Reaction { at, .. } && at > deadline) ==> spec_vote_step(
            author_id,
            deadline,
            ev,
        ) is Expired,
        (ev matches VoteEvent::Reaction { author_id: reactor, .. } && reactor != author_id)
            ==> (spec_vote_step(author_id, deadline, ev) is Pending || spec_vote_step(
            author_id,
            deadline,
            ev,
        ) is Expired),
{
}

} // verus!
