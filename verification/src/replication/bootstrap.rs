//! Bootstrap of a joining node.
//!
//! A joining node asks its neighbours for the keys that it should hold and
//! verifies them. Bootstrap is drained once every peer request has completed,
//! no source still owes hints that overflowed the verification queue, and every
//! discovered key has left the pipeline. Two limits keep a peer that stalls or
//! floods from holding bootstrap open: a source that owes hints blocks for at
//! most [`CAPACITY_REJECT_REDELIVER_TTL`], and bootstrap as a whole is complete
//! at the latest after [`BOOTSTRAP_MAX_DURATION`].

use vstd::prelude::*;

use crate::replication::clock::{Clock, Timestamp, NANOS_PER_SEC};
use crate::replication::config::PENDING_VERIFY_MAX_AGE;
use crate::replication::key_set::KeySet;
use crate::replication::laws::{law_pipeline_is_the_three_queues, law_when_a_check_drains};
pub use crate::replication::network_wait::BootstrapGateResult;
use crate::replication::scheduling::ReplicationQueues;
use crate::replication::source_times::{younger_than, SourceTimes};
use crate::replication::types::{PeerId, XorName};

verus! {

/// Nanoseconds for which a source whose hints were rejected for want of
/// capacity blocks the drain at most. The hints it owes would be stale after
/// that time.
pub const CAPACITY_REJECT_REDELIVER_TTL: u128 = PENDING_VERIFY_MAX_AGE;

/// Nanoseconds that a node remains in bootstrap at most: one hour, twice the
/// time that a single source can block it.
pub const BOOTSTRAP_MAX_DURATION: u128 = 60 * 60 * NANOS_PER_SEC;

/// How far the bootstrap of a node has come.
pub struct BootstrapState {
    /// Whether bootstrap is complete.
    pub drained: bool,
    /// Number of peer requests that have not completed.
    pub pending_peer_requests: usize,
    /// The keys that bootstrap has discovered.
    pub pending_keys: KeySet,
    /// The sources that owe hints, with the time at which each was first
    /// rejected.
    pub capacity_rejected_sources: SourceTimes,
    /// When bootstrap started.
    pub bootstrap_started_at: Timestamp,
    /// The clock that the times of this state are read from.
    pub clock: Clock,
}

/// What the decisions on bootstrap depend on.
#[verifier::ext_equal]
pub struct BootstrapView {
    pub drained: bool,
    pub pending_peer_requests: nat,
    pub pending_keys: Set<XorName>,
    pub capacity_rejected_sources: Map<PeerId, Timestamp>,
    pub bootstrap_started_at: Timestamp,
}

impl View for BootstrapState {
    type V = BootstrapView;

    open spec fn view(&self) -> BootstrapView {
        BootstrapView {
            drained: self.drained,
            pending_peer_requests: self.pending_peer_requests as nat,
            pending_keys: self.pending_keys@,
            capacity_rejected_sources: self.capacity_rejected_sources@,
            bootstrap_started_at: self.bootstrap_started_at,
        }
    }
}

impl BootstrapView {
    /// Bootstrap at its start.
    pub open spec fn fresh(started_at: Timestamp) -> BootstrapView {
        BootstrapView {
            drained: false,
            pending_peer_requests: 0,
            pending_keys: Set::empty(),
            capacity_rejected_sources: Map::empty(),
            bootstrap_started_at: started_at,
        }
    }

    /// Whether bootstrap has lasted as long as it may at `now`.
    pub open spec fn past_deadline(self, now: Timestamp) -> bool {
        now.since(self.bootstrap_started_at) >= BOOTSTRAP_MAX_DURATION
    }

    /// The sources that owe hints and have not used up their time at `now`.
    pub open spec fn blocking_sources(self, now: Timestamp) -> Map<PeerId, Timestamp> {
        younger_than(
            self.capacity_rejected_sources,
            now,
            CAPACITY_REJECT_REDELIVER_TTL as nat,
        )
    }

    /// Whether no work is outstanding at `now`, where `pipeline` holds the keys
    /// that are in any queue.
    pub open spec fn work_done(self, pipeline: Set<XorName>, now: Timestamp) -> bool {
        &&& self.pending_peer_requests == 0
        &&& self.blocking_sources(now) == Map::<PeerId, Timestamp>::empty()
        &&& self.pending_keys.disjoint(pipeline)
    }

    /// Whether no work is outstanding at any time: no peer request is pending, no
    /// source owes hints and no discovered key is in a queue.
    pub open spec fn nothing_outstanding(self, pipeline: Set<XorName>) -> bool {
        &&& self.pending_peer_requests == 0
        &&& self.capacity_rejected_sources == Map::<PeerId, Timestamp>::empty()
        &&& self.pending_keys.disjoint(pipeline)
    }

    /// Whether a check at `now` finds bootstrap drained.
    pub open spec fn drains(self, pipeline: Set<XorName>, now: Timestamp) -> bool {
        self.drained || self.past_deadline(now) || self.work_done(pipeline, now)
    }

    /// Whether a check at `now` drops the sources that have used up their time.
    /// It does so when the drain is open, the deadline has not passed and no
    /// peer request is pending.
    pub open spec fn evicts(self, now: Timestamp) -> bool {
        !self.drained && !self.past_deadline(now) && self.pending_peer_requests == 0
    }

    /// The state after a check at `now`.
    pub open spec fn checked(self, pipeline: Set<XorName>, now: Timestamp) -> BootstrapView {
        BootstrapView {
            drained: self.drains(pipeline, now),
            capacity_rejected_sources: if self.evicts(now) {
                self.blocking_sources(now)
            } else {
                self.capacity_rejected_sources
            },
            ..self
        }
    }

    /// The state with bootstrap marked complete.
    pub open spec fn marked(self) -> BootstrapView {
        BootstrapView { drained: true, ..self }
    }

    /// The state after hints of `source` were rejected at `now`. The time of an
    /// earlier rejection stays.
    pub open spec fn noted(self, source: PeerId, now: Timestamp) -> BootstrapView {
        if self.capacity_rejected_sources.contains_key(source) {
            self
        } else {
            BootstrapView {
                capacity_rejected_sources: self.capacity_rejected_sources.insert(source, now),
                ..self
            }
        }
    }

    /// The state after `source` has delivered all that it owed.
    pub open spec fn cleared(self, source: PeerId) -> BootstrapView {
        BootstrapView {
            capacity_rejected_sources: self.capacity_rejected_sources.remove(source),
            ..self
        }
    }

    /// The state after `keys` were discovered.
    pub open spec fn tracking(self, keys: Set<XorName>) -> BootstrapView {
        BootstrapView { pending_keys: self.pending_keys.union(keys), ..self }
    }

    /// The state after `count` peer requests were sent.
    pub open spec fn incremented(self, count: nat) -> BootstrapView {
        BootstrapView { pending_peer_requests: self.pending_peer_requests + count, ..self }
    }

    /// The state after `count` peer requests completed; never less than none
    /// are pending.
    pub open spec fn decremented(self, count: nat) -> BootstrapView {
        BootstrapView {
            pending_peer_requests: if self.pending_peer_requests >= count {
                (self.pending_peer_requests - count) as nat
            } else {
                0
            },
            ..self
        }
    }
}

impl BootstrapState {
    /// A bootstrap that starts now, with nothing outstanding.
    pub fn new() -> (state: BootstrapState)
        ensures
            state@ == BootstrapView::fresh(state.bootstrap_started_at),
            !state.drained,
            state.pending_peer_requests == 0,
            state.pending_keys@ == Set::<XorName>::empty(),
            state.capacity_rejected_sources@ == Map::<PeerId, Timestamp>::empty(),
            state.clock.was_started(),
            state.clock.shows(state.bootstrap_started_at),
    {
        let clock = Clock::start();
        BootstrapState {
            drained: false,
            pending_peer_requests: 0,
            pending_keys: KeySet::new(),
            capacity_rejected_sources: SourceTimes::new(),
            bootstrap_started_at: clock.now(),
            clock,
        }
    }
}

/// Marks bootstrap as complete.
pub fn mark_bootstrap_drained(state: &mut BootstrapState)
    ensures
        final(state)@ == old(state)@.marked(),
        final(state).clock == old(state).clock,
        *final(state) == (BootstrapState { drained: true, ..*old(state) }),
{
    state.drained = true;
}

/// Checks at the present time of the state's clock whether bootstrap is drained,
/// and records it. Returns whether it is. Which time the clock shows is open;
/// [`drain_decision`] says what follows from each.
pub fn check_bootstrap_drained(
    state: &mut BootstrapState,
    queues: &ReplicationQueues,
) -> (drained: bool)
    ensures
        drained == final(state)@.drained,
        exists|now: Timestamp| #[trigger]
            old(state).clock.shows(now) && final(state)@ == old(state)@.checked(queues@, now),
        old(state)@.drained || old(state)@.nothing_outstanding(queues@) ==> drained,
        final(state).clock == old(state).clock,
        *final(state) == (BootstrapState {
            drained,
            capacity_rejected_sources: final(state).capacity_rejected_sources,
            ..*old(state)
        }),
{
    let now = state.clock.now();
    proof {
        if state@.nothing_outstanding(queues@) {
            assert(state@.blocking_sources(now) =~= Map::<PeerId, Timestamp>::empty());
        }
    }
    drain_decision(state, queues, now)
}

/// Decides at `now` whether bootstrap is drained, and records it. Returns
/// whether it is.
///
/// Bootstrap is drained once it has been marked so, once
/// [`BOOTSTRAP_MAX_DURATION`] has passed since its start, and when no work is
/// outstanding. A check that is not settled by the first two, and finds no peer
/// request pending, drops the sources that have owed hints for
/// [`CAPACITY_REJECT_REDELIVER_TTL`] or longer.
pub fn drain_decision(
    state: &mut BootstrapState,
    queues: &ReplicationQueues,
    now: Timestamp,
) -> (drained: bool)
    ensures
        drained == old(state)@.drains(queues@, now),
        final(state)@ == old(state)@.checked(queues@, now),
        final(state).clock == old(state).clock,
        drained == final(state).drained,
        drained <==> {
            ||| old(state).drained
            ||| now.nanos - old(state).bootstrap_started_at.nanos >= BOOTSTRAP_MAX_DURATION
            ||| {
                &&& old(state).pending_peer_requests == 0
                &&& forall|source: PeerId| #[trigger]
                    old(state).capacity_rejected_sources@.contains_key(source) ==> now.nanos - old(
                        state,
                    ).capacity_rejected_sources@[source].nanos >= CAPACITY_REJECT_REDELIVER_TTL
                &&& forall|key: XorName| #[trigger]
                    old(state).pending_keys@.contains(key) ==> {
                        &&& !queues.pending_verify@.contains(key)
                        &&& !queues.fetch_queue@.contains(key)
                        &&& !queues.in_flight_fetch@.contains(key)
                    }
            }
        },
        *final(state) == (BootstrapState {
            drained,
            capacity_rejected_sources: final(state).capacity_rejected_sources,
            ..*old(state)
        }),
{
    proof {
        law_when_a_check_drains(state@, queues@, now);
        assert forall|key: XorName| queues@.contains(key) == (queues.pending_verify@.contains(key)
            || queues.fetch_queue@.contains(key) || queues.in_flight_fetch@.contains(key)) by {
            law_pipeline_is_the_three_queues(*queues, key);
        }
    }
    if state.drained {
        return true;
    }
    if now.saturating_duration_since(state.bootstrap_started_at) >= BOOTSTRAP_MAX_DURATION {
        state.drained = true;
        return true;
    }
    if state.pending_peer_requests > 0 {
        return false;
    }
    state.capacity_rejected_sources.retain_younger(now, CAPACITY_REJECT_REDELIVER_TTL);
    if !state.capacity_rejected_sources.is_empty() {
        return false;
    }
    if queues.is_bootstrap_work_empty(&state.pending_keys) {
        state.drained = true;
        true
    } else {
        false
    }
}

/// Records at the present time of the state's clock that hints of `source` were
/// rejected for want of capacity. Which time the clock shows is open;
/// [`note_capacity_rejected_at`] says what follows from each.
pub fn note_capacity_rejected(state: &mut BootstrapState, source: PeerId)
    ensures
        exists|now: Timestamp| #[trigger]
            old(state).clock.shows(now) && final(state)@ == old(state)@.noted(source, now),
        final(state)@.capacity_rejected_sources.contains_key(source),
        final(state).clock == old(state).clock,
        *final(state) == (BootstrapState {
            capacity_rejected_sources: final(state).capacity_rejected_sources,
            ..*old(state)
        }),
{
    let now = state.clock.now();
    note_capacity_rejected_at(state, source, now);
}

/// Records that hints of `source` were rejected for want of capacity at `now`.
/// The time of its first rejection stays: a source that keeps overflowing does
/// not extend the time for which it blocks the drain.
pub fn note_capacity_rejected_at(state: &mut BootstrapState, source: PeerId, now: Timestamp)
    ensures
        final(state)@ == old(state)@.noted(source, now),
        final(state).clock == old(state).clock,
        *final(state) == (BootstrapState {
            capacity_rejected_sources: final(state).capacity_rejected_sources,
            ..*old(state)
        }),
        final(state).capacity_rejected_sources@ == (if old(
            state,
        ).capacity_rejected_sources@.contains_key(source) {
            old(state).capacity_rejected_sources@
        } else {
            old(state).capacity_rejected_sources@.insert(source, now)
        }),
{
    state.capacity_rejected_sources.insert_if_absent(source, now);
}

/// Records that `source` completed an admission cycle without a rejection, so
/// that it owes nothing. Does nothing to a source that owed nothing.
pub fn clear_capacity_rejected(state: &mut BootstrapState, source: &PeerId)
    ensures
        final(state)@ == old(state)@.cleared(*source),
        final(state).clock == old(state).clock,
        *final(state) == (BootstrapState {
            capacity_rejected_sources: final(state).capacity_rejected_sources,
            ..*old(state)
        }),
        final(state).capacity_rejected_sources@ == old(state).capacity_rejected_sources@.remove(
            *source,
        ),
{
    state.capacity_rejected_sources.remove(source);
}

/// Records discovered keys, which bootstrap then waits for.
pub fn track_discovered_keys(state: &mut BootstrapState, keys: &KeySet)
    ensures
        final(state)@ == old(state)@.tracking(keys@),
        final(state).clock == old(state).clock,
        *final(state) == (BootstrapState { pending_keys: final(state).pending_keys, ..*old(state) }),
        final(state).pending_keys@ == old(state).pending_keys@.union(keys@),
{
    state.pending_keys.extend(keys);
}

/// Records that `count` peer requests were sent.
pub fn increment_pending_requests(state: &mut BootstrapState, count: usize)
    requires
        old(state).pending_peer_requests + count <= usize::MAX,
    ensures
        final(state)@ == old(state)@.incremented(count as nat),
        final(state).clock == old(state).clock,
        *final(state) == (BootstrapState {
            pending_peer_requests: (old(state).pending_peer_requests + count) as usize,
            ..*old(state)
        }),
{
    state.pending_peer_requests += count;
}

/// Records that `count` peer requests completed. Stops at none pending.
pub fn decrement_pending_requests(state: &mut BootstrapState, count: usize)
    ensures
        final(state)@ == old(state)@.decremented(count as nat),
        final(state).clock == old(state).clock,
        *final(state) == (BootstrapState {
            pending_peer_requests: if old(state).pending_peer_requests >= count {
                (old(state).pending_peer_requests - count) as usize
            } else {
                0
            },
            ..*old(state)
        }),
{
    state.pending_peer_requests = state.pending_peer_requests.saturating_sub(count);
}

} // verus!
