//! Voice sessions and their process-wide registry.
//!
//! A session binds one guild to an active voice connection and the guild's
//! play queue; at most one session exists per guild, and a guild is connected
//! exactly while its session is registered. Every mutation of a session goes
//! through a registry method on `&mut self`, the single serialization point
//! standing for the per-session lock: a driver holds the registry behind one
//! lock and feeds it commands and completion events one at a time.
//!
//! Each public mutation is pinned to a pure transition function over the
//! registry's mathematical view, so that laws about command sequences can be
//! stated and proved over those transitions.

use vstd::prelude::*;

use std::collections::HashMap;

use crate::model::{QueuedTrack, TrackMetadata};
use crate::queue::PlayQueue;

verus! {

broadcast use vstd::std_specs::hash::group_hash_axioms;

/// The live binding of one guild to a voice connection and its play queue.
/// The connection handle itself lives with the transport; a session being
/// registered means the connection is up.
pub struct VoiceSession {
    /// Guild this session belongs to.
    pub guild_id: u64,
    /// Voice channel the connection was established to.
    pub voice_channel_id: u64,
    /// The guild's ordered play queue.
    pub queue: PlayQueue,
}

/// Ghost image of a [`VoiceSession`].
pub ghost struct SessionView {
    pub guild_id: u64,
    pub voice_channel_id: u64,
    pub queue: Seq<QueuedTrack>,
}

impl View for VoiceSession {
    type V = SessionView;

    open spec fn view(&self) -> SessionView {
        SessionView {
            guild_id: self.guild_id,
            voice_channel_id: self.voice_channel_id,
            queue: self.queue@,
        }
    }
}

/// Process-wide mapping from guild identifier to that guild's session.
pub struct VoiceSessionRegistry {
    sessions: HashMap<u64, VoiceSession>,
}

impl View for VoiceSessionRegistry {
    type V = Map<u64, SessionView>;

    closed spec fn view(&self) -> Map<u64, SessionView> {
        self.sessions@.map_values(|s: VoiceSession| s@)
    }
}

/// Joining a guild: an existing session is kept as it is (idempotent), else a
/// session with an empty queue is registered for the target channel.
pub open spec fn join_transition(m: Map<u64, SessionView>, g: u64, ch: u64) -> Map<
    u64,
    SessionView,
> {
    if m.contains_key(g) {
        m
    } else {
        m.insert(g, SessionView { guild_id: g, voice_channel_id: ch, queue: Seq::empty() })
    }
}

/// Enqueueing one resolved track: a single atomic append to the guild's queue.
pub open spec fn enqueue_transition(
    m: Map<u64, SessionView>,
    g: u64,
    t: QueuedTrack,
) -> Map<u64, SessionView>
    recommends
        m.contains_key(g),
{
    m.insert(
        g,
        SessionView {
            guild_id: m[g].guild_id,
            voice_channel_id: m[g].voice_channel_id,
            queue: m[g].queue.push(t),
        },
    )
}

/// A track-completion event: without a session it changes nothing; with the
/// finished track gone and nothing left, the session is evicted; otherwise
/// the queue advances and the successor becomes current.
pub open spec fn end_transition(m: Map<u64, SessionView>, g: u64) -> Map<u64, SessionView> {
    if !m.contains_key(g) {
        m
    } else if m[g].queue.len() <= 1 {
        m.remove(g)
    } else {
        m.insert(
            g,
            SessionView {
                guild_id: m[g].guild_id,
                voice_channel_id: m[g].voice_channel_id,
                queue: m[g].queue.drop_first(),
            },
        )
    }
}

/// A skip command: without a session or with a playing track it changes no
/// state (stopping the current track is the transport's work, and the
/// completion event it fires does the advancing); with an empty queue the
/// idle session is evicted.
pub open spec fn skip_transition(m: Map<u64, SessionView>, g: u64) -> Map<u64, SessionView> {
    if !m.contains_key(g) {
        m
    } else if m[g].queue.len() == 0 {
        m.remove(g)
    } else {
        m
    }
}

/// The state after a sequence of play commands for one guild, each enqueueing
/// its already resolved track in invocation order.
pub open spec fn plays_folded(
    m: Map<u64, SessionView>,
    g: u64,
    ts: Seq<QueuedTrack>,
) -> Map<u64, SessionView>
    decreases ts.len(),
{
    if ts.len() == 0 {
        m
    } else {
        plays_folded(enqueue_transition(m, g, ts[0]), g, ts.drop_first())
    }
}

/// Folding one more play at the back equals one enqueue after the fold.
pub proof fn lemma_plays_folded_push(
    m: Map<u64, SessionView>,
    g: u64,
    ts: Seq<QueuedTrack>,
    t: QueuedTrack,
)
    ensures
        plays_folded(m, g, ts.push(t)) == enqueue_transition(plays_folded(m, g, ts), g, t),
    decreases ts.len(),
{
    if ts.len() == 0 {
        let m1 = enqueue_transition(m, g, t);
        assert(ts.push(t)[0] == t);
        assert(ts.push(t).drop_first() =~= Seq::<QueuedTrack>::empty());
        assert(plays_folded(m, g, ts.push(t)) == plays_folded(m1, g, Seq::empty()));
        assert(plays_folded(m1, g, Seq::<QueuedTrack>::empty()) == m1);
        assert(plays_folded(m, g, ts) == m);
    } else {
        let m1 = enqueue_transition(m, g, ts[0]);
        assert(ts.push(t)[0] == ts[0]);
        assert(ts.push(t).drop_first() =~= ts.drop_first().push(t));
        assert(plays_folded(m, g, ts.push(t)) == plays_folded(m1, g, ts.drop_first().push(t)));
        assert(plays_folded(m, g, ts) == plays_folded(m1, g, ts.drop_first()));
        lemma_plays_folded_push(m1, g, ts.drop_first(), t);
    }
}

/// For every sequence of play commands against one guild, the resulting queue
/// order equals the invocation order: the old queue extended by the played
/// tracks, first invocation first. Sessions of other guilds are untouched.
/// (Resolution happens before a track reaches the registry, so differing
/// resolution latencies only determine the invocation order itself.)
pub proof fn lemma_play_order_fifo(m: Map<u64, SessionView>, g: u64, ts: Seq<QueuedTrack>)
    requires
        m.contains_key(g),
    ensures
        plays_folded(m, g, ts) == m.insert(
            g,
            SessionView {
                guild_id: m[g].guild_id,
                voice_channel_id: m[g].voice_channel_id,
                queue: m[g].queue + ts,
            },
        ),
    decreases ts.len(),
{
    if ts.len() == 0 {
        assert(m[g].queue + ts =~= m[g].queue);
        assert(plays_folded(m, g, ts) =~= m.insert(
            g,
            SessionView {
                guild_id: m[g].guild_id,
                voice_channel_id: m[g].voice_channel_id,
                queue: m[g].queue + ts,
            },
        ));
    } else {
        let m1 = enqueue_transition(m, g, ts[0]);
        lemma_play_order_fifo(m1, g, ts.drop_first());
        assert(plays_folded(m, g, ts) == plays_folded(m1, g, ts.drop_first()));
        assert(m1[g].queue + ts.drop_first() =~= m[g].queue + ts);
        assert(plays_folded(m, g, ts) =~= m.insert(
            g,
            SessionView {
                guild_id: m[g].guild_id,
                voice_channel_id: m[g].voice_channel_id,
                queue: m[g].queue + ts,
            },
        ));
    }
}

/// Skipping the current track yields one of exactly two futures: the
/// immediate successor becomes current once the completion event lands, or,
/// with no successor, the session is removed and the connection closed.
pub proof fn lemma_skip_then_completion(m: Map<u64, SessionView>, g: u64)
    requires
        m.contains_key(g),
        m[g].queue.len() > 0,
    ensures
        skip_transition(m, g) == m,
        m[g].queue.len() >= 2 ==> (end_transition(skip_transition(m, g), g).contains_key(g)
            && end_transition(skip_transition(m, g), g)[g].queue == m[g].queue.drop_first()
            && end_transition(skip_transition(m, g), g)[g].queue[0] == m[g].queue[1]),
        m[g].queue.len() == 1 ==> !end_transition(skip_transition(m, g), g).contains_key(g),
{
}

/// A completion event that fires after the owning session has already been
/// removed changes nothing: the handler is idempotent under that race.
pub proof fn lemma_completion_after_removal(m: Map<u64, SessionView>, g: u64)
    requires
        !m.contains_key(g),
    ensures
        end_transition(m, g) == m,
{
}

/// What a play command reports back once its track is enqueued.
pub enum PlayFeedback {
    /// The queue was empty, so the track starts at once.
    NowPlaying,
    /// Another track is sounding; the new one waits at this position
    /// (counting from 1, the current track).
    QueuedAt(usize),
}

/// What the completion handler asks the driver to do after a track ends.
pub enum CompletionAction {
    /// The session was already gone: nothing to do.
    Ignored,
    /// Nothing is left to play: the voice connection was torn down and the
    /// session evicted.
    Disconnected,
    /// A successor track became current: announce it in the ended track's
    /// channel, mentioning the ended track's requester.
    Announce { channel_id: u64, mention: String, metadata: TrackMetadata },
}

/// What a skip command asks the driver to do.
pub enum SkipAction {
    /// No session exists for the guild: reply with an informational message;
    /// this is not an error.
    NotInVoice,
    /// The queue was empty: the voice connection was torn down and the
    /// session evicted.
    Disconnected,
    /// Tell the transport to stop the current track; the completion event it
    /// fires then advances the queue.
    StoppedCurrent,
}

impl VoiceSessionRegistry {
    pub fn new() -> (r: VoiceSessionRegistry)
        ensures
            r@ == Map::<u64, SessionView>::empty(),
    {
        let r = VoiceSessionRegistry { sessions: HashMap::new() };
        proof {
            assert(r@ =~= Map::<u64, SessionView>::empty());
        }
        r
    }

    pub fn contains_guild(&self, g: u64) -> (b: bool)
        ensures
            b == self@.contains_key(g),
    {
        self.sessions.contains_key(&g)
    }

    /// The guild's session, when it has one.
    pub fn get(&self, g: u64) -> (r: Option<&VoiceSession>)
        ensures
            r is Some <==> self@.contains_key(g),
            r matches Some(s) ==> s@ == self@[g],
    {
        self.sessions.get(&g)
    }

    /// The guild's queue, when a session exists.
    pub fn queue_of(&self, g: u64) -> (r: Option<&PlayQueue>)
        ensures
            r is Some <==> self@.contains_key(g),
            r matches Some(q) ==> q@ == self@[g].queue,
    {
        match self.sessions.get(&g) {
            Some(s) => Some(&s.queue),
            None => None,
        }
    }

    /// Idempotently makes sure the guild has a session: an existing one is
    /// returned untouched, otherwise a connection to the target channel is
    /// registered with an empty queue. Returns whether a session was created.
    pub fn get_or_create(&mut self, g: u64, voice_channel_id: u64) -> (created: bool)
        ensures
            final(self)@ == join_transition(old(self)@, g, voice_channel_id),
            created == !old(self)@.contains_key(g),
            final(self)@.contains_key(g),
    {
        if self.sessions.contains_key(&g) {
            proof {
                assert(self@ =~~= join_transition(self@, g, voice_channel_id));
            }
            false
        } else {
            let s = VoiceSession { guild_id: g, voice_channel_id, queue: PlayQueue::new() };
            self.sessions.insert(g, s);
            proof {
                assert(self@ =~~= join_transition(old(self)@, g, voice_channel_id));
            }
            true
        }
    }

    /// Tears the session down and drops it from the registry; without a
    /// session nothing changes.
    pub fn remove(&mut self, g: u64)
        ensures
            final(self)@ == old(self)@.remove(g),
            !final(self)@.contains_key(g),
    {
        self.sessions.remove(&g);
        proof {
            assert(self@ =~~= old(self)@.remove(g));
        }
    }

    /// Enqueues an already resolved track for the guild, reporting whether it
    /// starts at once or waits behind the current one. The resolution that
    /// produced the track happened before this call, so a slow lookup never
    /// holds the registry.
    pub fn play_resolved(&mut self, g: u64, track: QueuedTrack) -> (r: PlayFeedback)
        requires
            old(self)@.contains_key(g),
            old(self)@[g].queue.len() < usize::MAX,
        ensures
            final(self)@ == enqueue_transition(old(self)@, g, track),
            final(self)@[g].queue == old(self)@[g].queue.push(track),
            r is NowPlaying <==> old(self)@[g].queue.len() == 0,
            r matches PlayFeedback::QueuedAt(p) ==> p == old(self)@[g].queue.len() + 1,
    {
        let mut s = self.sessions.remove(&g).unwrap();
        s.queue.enqueue(track);
        let n = s.queue.len();
        self.sessions.insert(g, s);
        proof {
            assert(self@ =~~= enqueue_transition(old(self)@, g, track));
        }
        if n == 1 {
            PlayFeedback::NowPlaying
        } else {
            PlayFeedback::QueuedAt(n)
        }
    }

    /// Handles the transport's notice that the guild's current track ended:
    /// the finished track leaves the queue, and either the successor is
    /// announced, or, with nothing left, the connection is closed and the
    /// session evicted. A completion event for a guild whose session is
    /// already gone changes nothing.
    pub fn on_track_end(&mut self, g: u64) -> (r: CompletionAction)
        ensures
            final(self)@ == end_transition(old(self)@, g),
            !old(self)@.contains_key(g) ==> final(self)@ == old(self)@ && r is Ignored,
            old(self)@.contains_key(g) && old(self)@[g].queue.len() <= 1 ==> r is Disconnected
                && !final(self)@.contains_key(g),
            old(self)@.contains_key(g) && old(self)@[g].queue.len() >= 2 ==> (r matches
                CompletionAction::Announce { channel_id, mention, metadata }
                && channel_id == old(self)@[g].queue[0].announce_channel_id
                && mention == old(self)@[g].queue[0].requested_by
                && metadata == old(self)@[g].queue[1].metadata
                && final(self)@[g].queue == old(self)@[g].queue.drop_first()),
    {
        match self.sessions.remove(&g) {
            None => {
                proof {
                    assert(self@ =~~= end_transition(old(self)@, g));
                }
                CompletionAction::Ignored
            },
            Some(mut s) => {
                let ended = s.queue.advance();
                if s.queue.is_empty() {
                    proof {
                        assert(self@ =~~= end_transition(old(self)@, g));
                    }
                    CompletionAction::Disconnected
                } else {
                    let metadata = match s.queue.current() {
                        Some(front) => front.metadata.duplicate(),
                        None => TrackMetadata::new(None, None, None),
                    };
                    let ended_track = ended.unwrap();
                    self.sessions.insert(g, s);
                    proof {
                        assert(self@ =~~= end_transition(old(self)@, g));
                    }
                    CompletionAction::Announce {
                        channel_id: ended_track.announce_channel_id,
                        mention: ended_track.requested_by,
                        metadata,
                    }
                }
            },
        }
    }

    /// Enqueues a batch of already resolved tracks in the given order, as a
    /// playlist import does after shuffling and resolving its stored entries.
    pub fn enqueue_all(&mut self, g: u64, tracks: Vec<QueuedTrack>)
        requires
            old(self)@.contains_key(g),
            old(self)@[g].queue.len() + tracks@.len() <= usize::MAX,
        ensures
            final(self)@ == plays_folded(old(self)@, g, tracks@),
            final(self)@[g].queue == old(self)@[g].queue + tracks@,
    {
        let ghost all = tracks@;
        let ghost mut done: Seq<QueuedTrack> = Seq::empty();
        let mut rest = tracks;
        proof {
            assert(all =~= done + rest@);
            assert(self@[g].queue =~= old(self)@[g].queue + done);
        }
        while rest.len() > 0
            invariant
                all == done + rest@,
                self@ == plays_folded(old(self)@, g, done),
                self@.contains_key(g),
                self@[g].queue == old(self)@[g].queue + done,
                old(self)@[g].queue.len() + all.len() <= usize::MAX,
            decreases rest@.len(),
        {
            let ghost rest0 = rest@;
            let t = rest.remove(0);
            proof {
                assert(rest@ =~= rest0.drop_first());
                lemma_plays_folded_push(old(self)@, g, done, t);
            }
            self.play_resolved(g, t);
            proof {
                done = done.push(t);
                assert(all =~= done + rest@);
                assert(self@[g].queue =~= old(self)@[g].queue + done);
            }
        }
        proof {
            assert(done =~= all);
        }
    }

    /// Handles a skip command: with a playing track the transport is told to
    /// stop it (the completion event then advances the queue); with an empty
    /// queue the idle session is torn down, mirroring completion cleanup;
    /// without a session the reply is informational only.
    pub fn skip(&mut self, g: u64) -> (r: SkipAction)
        ensures
            final(self)@ == skip_transition(old(self)@, g),
            !old(self)@.contains_key(g) ==> r is NotInVoice && final(self)@ == old(self)@,
            old(self)@.contains_key(g) && old(self)@[g].queue.len() == 0 ==> r is Disconnected
                && !final(self)@.contains_key(g),
            old(self)@.contains_key(g) && old(self)@[g].queue.len() > 0 ==> r is StoppedCurrent
                && final(self)@ == old(self)@,
    {
        let state: Option<bool> = match self.sessions.get(&g) {
            None => None,
            Some(s) => Some(s.queue.is_empty()),
        };
        match state {
            None => {
                proof {
                    assert(self@ =~~= skip_transition(self@, g));
                }
                SkipAction::NotInVoice
            },
            Some(true) => {
                self.sessions.remove(&g);
                proof {
                    assert(self@ =~~= skip_transition(old(self)@, g));
                }
                SkipAction::Disconnected
            },
            Some(false) => {
                proof {
                    assert(self@ =~~= skip_transition(self@, g));
                }
                SkipAction::StoppedCurrent
            },
        }
    }
}

} // verus!
