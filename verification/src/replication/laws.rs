//! What holds of bootstrap as a whole, over any sequence of its operations.

use vstd::prelude::*;

use crate::replication::bootstrap::{
    BootstrapState, BootstrapView, BOOTSTRAP_MAX_DURATION, CAPACITY_REJECT_REDELIVER_TTL,
};
use crate::replication::clock::{Timestamp, NANOS_PER_SEC};
use crate::replication::config::PENDING_VERIFY_MAX_AGE;
use crate::replication::scheduling::ReplicationQueues;
use crate::replication::source_times::younger_than;
use crate::replication::types::{PeerId, XorName};

verus! {

/// An operation on the bootstrap state.
pub enum BootstrapOp {
    Mark,
    Check { pipeline: Set<XorName>, now: Timestamp },
    Note { source: PeerId, now: Timestamp },
    Clear { source: PeerId },
    Track { keys: Set<XorName> },
    Increment { count: nat },
    Decrement { count: nat },
}

/// The state after one operation.
pub open spec fn apply(state: BootstrapView, op: BootstrapOp) -> BootstrapView {
    match op {
        BootstrapOp::Mark => state.marked(),
        BootstrapOp::Check { pipeline, now } => state.checked(pipeline, now),
        BootstrapOp::Note { source, now } => state.noted(source, now),
        BootstrapOp::Clear { source } => state.cleared(source),
        BootstrapOp::Track { keys } => state.tracking(keys),
        BootstrapOp::Increment { count } => state.incremented(count),
        BootstrapOp::Decrement { count } => state.decremented(count),
    }
}

/// The state after operations one after the other.
pub open spec fn run(state: BootstrapView, ops: Seq<BootstrapOp>) -> BootstrapView
    decreases ops.len(),
{
    if ops.len() == 0 {
        state
    } else {
        run(apply(state, ops.first()), ops.drop_first())
    }
}

/// Law: no operation moves the start of bootstrap.
pub proof fn law_start_never_moves(state: BootstrapView, ops: Seq<BootstrapOp>)
    ensures
        run(state, ops).bootstrap_started_at == state.bootstrap_started_at,
    decreases ops.len(),
{
    if ops.len() != 0 {
        law_start_never_moves(apply(state, ops.first()), ops.drop_first());
    }
}

/// Law: once bootstrap is drained it stays drained, whatever happens.
pub proof fn law_drained_is_final(state: BootstrapView, ops: Seq<BootstrapOp>)
    requires
        state.drained,
    ensures
        run(state, ops).drained,
    decreases ops.len(),
{
    if ops.len() != 0 {
        law_drained_is_final(apply(state, ops.first()), ops.drop_first());
    }
}

/// Law: bootstrap always completes. Whatever has happened since its start, a
/// check that is made [`BOOTSTRAP_MAX_DURATION`] or longer after it finds
/// bootstrap drained, and so does every later check.
pub proof fn law_completes_at_deadline(
    state: BootstrapView,
    ops: Seq<BootstrapOp>,
    pipeline: Set<XorName>,
    now: Timestamp,
)
    requires
        now.since(state.bootstrap_started_at) >= BOOTSTRAP_MAX_DURATION,
    ensures
        run(state, ops).drains(pipeline, now),
        run(state, ops).checked(pipeline, now).drained,
        forall|later: Timestamp, pipeline_then: Set<XorName>|
            later.nanos >= now.nanos ==> {
                &&& #[trigger] run(state, ops).drains(pipeline_then, later)
                &&& run(state, ops).checked(pipeline, now).drains(pipeline_then, later)
            },
{
    law_start_never_moves(state, ops);
}

/// Law: completing at the deadline does not depend on dropping anybody: the
/// sources that owe hints are still recorded.
pub proof fn law_deadline_keeps_sources(
    state: BootstrapView,
    pipeline: Set<XorName>,
    now: Timestamp,
)
    requires
        now.since(state.bootstrap_started_at) >= BOOTSTRAP_MAX_DURATION,
    ensures
        state.checked(pipeline, now).capacity_rejected_sources == state.capacity_rejected_sources,
{
}

/// Law: before the deadline a pending peer request keeps the drain open, and
/// the check changes nothing.
pub proof fn law_pending_request_blocks(
    state: BootstrapView,
    pipeline: Set<XorName>,
    now: Timestamp,
)
    requires
        !state.drained,
        !state.past_deadline(now),
        state.pending_peer_requests > 0,
    ensures
        state.checked(pipeline, now) == state,
{
}

/// Law: before the deadline a discovered key that is in any queue keeps the
/// drain open.
pub proof fn law_key_in_pipeline_blocks(
    state: BootstrapView,
    pipeline: Set<XorName>,
    now: Timestamp,
    key: XorName,
)
    requires
        !state.drained,
        !state.past_deadline(now),
        state.pending_keys.contains(key),
        pipeline.contains(key),
    ensures
        !state.drains(pipeline, now),
{
}

/// Law: before the deadline a source that owes hints keeps the drain open until
/// [`CAPACITY_REJECT_REDELIVER_TTL`] has passed since its first rejection, and
/// no check drops it before.
pub proof fn law_source_blocks_within_ttl(
    state: BootstrapView,
    pipeline: Set<XorName>,
    now: Timestamp,
    source: PeerId,
)
    requires
        !state.drained,
        !state.past_deadline(now),
        state.capacity_rejected_sources.contains_key(source),
        now.since(state.capacity_rejected_sources[source]) < CAPACITY_REJECT_REDELIVER_TTL,
    ensures
        !state.drains(pipeline, now),
        state.checked(pipeline, now).capacity_rejected_sources.contains_key(source),
        state.checked(pipeline, now).capacity_rejected_sources[source]
            == state.capacity_rejected_sources[source],
{
    assert(state.blocking_sources(now).contains_key(source));
}

/// Law: sources that stall cannot hold bootstrap open. Once
/// [`CAPACITY_REJECT_REDELIVER_TTL`] has passed since the first rejection of
/// each source that owes hints, and nothing else is outstanding, the check finds
/// bootstrap drained. Where the check got as far as looking at the sources, none
/// of them is left.
pub proof fn law_stalled_sources_do_not_block(
    state: BootstrapView,
    pipeline: Set<XorName>,
    now: Timestamp,
)
    requires
        state.pending_peer_requests == 0,
        state.pending_keys.disjoint(pipeline),
        forall|source: PeerId| #[trigger]
            state.capacity_rejected_sources.contains_key(source) ==> now.since(
                state.capacity_rejected_sources[source],
            ) >= CAPACITY_REJECT_REDELIVER_TTL,
    ensures
        state.checked(pipeline, now).drained,
        !state.drained && !state.past_deadline(now) ==> state.checked(
            pipeline,
            now,
        ).capacity_rejected_sources == Map::<PeerId, Timestamp>::empty(),
{
    assert(state.blocking_sources(now) =~= Map::<PeerId, Timestamp>::empty());
}

/// Whether an operation leaves alone the entry of a source that was first
/// rejected at `first`: it neither clears the source nor is a check at a time when
/// the source has used up its time.
pub open spec fn spares(op: BootstrapOp, source: PeerId, first: Timestamp) -> bool {
    match op {
        BootstrapOp::Clear { source: cleared } => cleared != source,
        BootstrapOp::Check { now, .. } => now.since(first) < CAPACITY_REJECT_REDELIVER_TTL,
        _ => true,
    }
}

/// Law: the time of a source's first rejection stays until the source is cleared
/// or its time is up, whatever else happens. In particular a source does not
/// extend the time for which it blocks by overflowing again.
pub proof fn law_first_rejection_stays(
    state: BootstrapView,
    source: PeerId,
    first: Timestamp,
    ops: Seq<BootstrapOp>,
)
    requires
        !state.capacity_rejected_sources.contains_key(source),
        forall|i: int| 0 <= i < ops.len() ==> spares(#[trigger] ops[i], source, first),
    ensures
        run(state.noted(source, first), ops).capacity_rejected_sources.contains_key(source),
        run(state.noted(source, first), ops).capacity_rejected_sources[source] == first,
{
    lemma_entry_stays(state.noted(source, first), source, first, ops);
}

/// An entry stays under operations that spare it.
proof fn lemma_entry_stays(
    state: BootstrapView,
    source: PeerId,
    first: Timestamp,
    ops: Seq<BootstrapOp>,
)
    requires
        state.capacity_rejected_sources.contains_key(source),
        state.capacity_rejected_sources[source] == first,
        forall|i: int| 0 <= i < ops.len() ==> spares(#[trigger] ops[i], source, first),
    ensures
        run(state, ops).capacity_rejected_sources.contains_key(source),
        run(state, ops).capacity_rejected_sources[source] == first,
    decreases ops.len(),
{
    if ops.len() != 0 {
        assert(spares(ops[0], source, first));
        assert forall|i: int| 0 <= i < ops.drop_first().len() implies spares(
            #[trigger] ops.drop_first()[i],
            source,
            first,
        ) by {
            assert(spares(ops[i + 1], source, first));
        }
        lemma_entry_stays(apply(state, ops.first()), source, first, ops.drop_first());
    }
}

/// Law: a single source that floods holds bootstrap open no longer than
/// [`CAPACITY_REJECT_REDELIVER_TTL`]. Where nothing else is outstanding, a check
/// that long after its first rejection finds bootstrap drained, however often it
/// overflowed again.
pub proof fn law_single_flooder_is_bounded(
    state: BootstrapView,
    source: PeerId,
    first: Timestamp,
    flood: Seq<BootstrapOp>,
    pipeline: Set<XorName>,
    now: Timestamp,
)
    requires
        state.capacity_rejected_sources == Map::<PeerId, Timestamp>::empty(),
        state.pending_peer_requests == 0,
        state.pending_keys.disjoint(pipeline),
        forall|i: int|
            0 <= i < flood.len() ==> flood[i] is Note && flood[i]->Note_source == source,
        now.since(first) >= CAPACITY_REJECT_REDELIVER_TTL,
    ensures
        run(state.noted(source, first), flood).checked(pipeline, now).drained,
{
    let noted = state.noted(source, first);
    lemma_notes_of_recorded_source_change_nothing(noted, source, flood);
    law_stalled_sources_do_not_block(noted, pipeline, now);
}

/// Recording rejections of a source that already owes hints changes nothing.
proof fn lemma_notes_of_recorded_source_change_nothing(
    state: BootstrapView,
    source: PeerId,
    flood: Seq<BootstrapOp>,
)
    requires
        state.capacity_rejected_sources.contains_key(source),
        forall|i: int|
            0 <= i < flood.len() ==> flood[i] is Note && flood[i]->Note_source == source,
    ensures
        run(state, flood) == state,
    decreases flood.len(),
{
    if flood.len() != 0 {
        assert(flood[0] is Note && flood[0]->Note_source == source);
        lemma_notes_of_recorded_source_change_nothing(state, source, flood.drop_first());
    }
}

/// Law: a source is recorded once: recording a rejection of a source that
/// already owes hints changes nothing, at whatever time.
pub proof fn law_note_is_idempotent(
    state: BootstrapView,
    source: PeerId,
    first: Timestamp,
    again: Timestamp,
)
    ensures
        state.noted(source, first).noted(source, again) == state.noted(source, first),
{
}

/// Law: clearing a source undoes the recording of its rejection.
pub proof fn law_clear_undoes_note(state: BootstrapView, source: PeerId, now: Timestamp)
    requires
        !state.capacity_rejected_sources.contains_key(source),
    ensures
        state.noted(source, now).cleared(source) == state,
        state.cleared(source) == state,
{
    assert(state.noted(source, now).cleared(source).capacity_rejected_sources
        =~= state.capacity_rejected_sources);
    assert(state.cleared(source).capacity_rejected_sources =~= state.capacity_rejected_sources);
}

/// Law: sources are tracked one by one: recording or clearing one leaves what
/// is recorded of every other, and the order of the two does not matter.
pub proof fn law_sources_are_independent(
    state: BootstrapView,
    source: PeerId,
    other: PeerId,
    now: Timestamp,
)
    requires
        source != other,
    ensures
        state.cleared(source).capacity_rejected_sources.contains_key(other)
            == state.capacity_rejected_sources.contains_key(other),
        state.noted(source, now).capacity_rejected_sources.contains_key(other)
            == state.capacity_rejected_sources.contains_key(other),
        state.capacity_rejected_sources.contains_key(other) ==> {
            &&& state.cleared(source).capacity_rejected_sources[other]
                == state.capacity_rejected_sources[other]
            &&& state.noted(source, now).capacity_rejected_sources[other]
                == state.capacity_rejected_sources[other]
        },
        state.noted(source, now).cleared(other) == state.cleared(other).noted(source, now),
{
    assert(state.noted(source, now).cleared(other).capacity_rejected_sources
        =~= state.cleared(other).noted(source, now).capacity_rejected_sources);
}

/// Law: a check drops no source but those that have used up their time, and
/// adds none.
pub proof fn law_check_drops_only_expired_sources(
    state: BootstrapView,
    pipeline: Set<XorName>,
    now: Timestamp,
    source: PeerId,
)
    ensures
        state.checked(pipeline, now).capacity_rejected_sources.contains_key(source)
            ==> state.capacity_rejected_sources.contains_key(source),
        state.capacity_rejected_sources.contains_key(source) && !state.checked(
            pipeline,
            now,
        ).capacity_rejected_sources.contains_key(source) ==> now.since(
            state.capacity_rejected_sources[source],
        ) >= CAPACITY_REJECT_REDELIVER_TTL,
{
}

/// Law: a second check at the same time, with the same keys in the queues,
/// changes nothing and finds the same.
pub proof fn law_check_is_idempotent(state: BootstrapView, pipeline: Set<XorName>, now: Timestamp)
    ensures
        state.checked(pipeline, now).checked(pipeline, now) == state.checked(pipeline, now),
{
    let once = state.checked(pipeline, now);
    let twice = once.checked(pipeline, now);
    assert(once.blocking_sources(now) =~= state.blocking_sources(now));
    assert(twice.capacity_rejected_sources =~= once.capacity_rejected_sources);
}

/// Law: waiting does not hurt: where a check finds bootstrap drained, a check of
/// the same state at any later time does too.
pub proof fn law_drain_is_monotone_in_time(
    state: BootstrapView,
    pipeline: Set<XorName>,
    now: Timestamp,
    later: Timestamp,
)
    requires
        now.nanos <= later.nanos,
        state.drains(pipeline, now),
    ensures
        state.drains(pipeline, later),
{
    if state.work_done(pipeline, now) {
        assert forall|source: PeerId| !state.blocking_sources(later).contains_key(source) by {
            assert(!state.blocking_sources(now).contains_key(source));
        }
        assert(state.blocking_sources(later) =~= Map::<PeerId, Timestamp>::empty());
    }
}

/// Law: keys that leave the queues never reopen a drain: where a check finds
/// bootstrap drained, a check with fewer keys in the queues does too.
pub proof fn law_drain_is_monotone_in_work(
    state: BootstrapView,
    pipeline: Set<XorName>,
    fewer: Set<XorName>,
    now: Timestamp,
)
    requires
        fewer.subset_of(pipeline),
        state.drains(pipeline, now),
    ensures
        state.drains(fewer, now),
{
}

/// Law: requests that complete undo requests that were sent, and completing
/// more than are pending leaves none pending.
pub proof fn law_request_counter(state: BootstrapView, sent: nat, completed: nat)
    ensures
        state.incremented(sent).decremented(sent) == state,
        completed >= state.pending_peer_requests ==> state.decremented(
            completed,
        ).pending_peer_requests == 0,
{
}

/// Law: discovered keys accumulate without doubles: recording the same keys
/// again changes nothing, and the order does not matter.
pub proof fn law_tracked_keys_accumulate(
    state: BootstrapView,
    keys: Set<XorName>,
    more: Set<XorName>,
)
    ensures
        state.tracking(keys).tracking(keys) == state.tracking(keys),
        state.tracking(keys).tracking(more) == state.tracking(more).tracking(keys),
        state.tracking(keys).tracking(more).pending_keys == state.pending_keys.union(keys).union(
            more,
        ),
{
    assert(state.tracking(keys).tracking(keys).pending_keys =~= state.tracking(keys).pending_keys);
    assert(state.tracking(keys).tracking(more).pending_keys =~= state.tracking(more).tracking(
        keys,
    ).pending_keys);
}

/// Law: the time that one source can block for is half of what bootstrap may
/// last.
pub proof fn law_deadline_is_twice_the_ttl()
    ensures
        BOOTSTRAP_MAX_DURATION == 2 * CAPACITY_REJECT_REDELIVER_TTL,
{
}

// ---------------------------------------------------------------------------
// Times, limits and what a state shows
// ---------------------------------------------------------------------------
/// Law: the time between two readings of a clock is their difference, and none if
/// the earlier reading is the larger one.
pub proof fn law_duration_is_the_difference(now: Timestamp, earlier: Timestamp)
    ensures
        earlier.nanos <= now.nanos ==> now.since(earlier) == now.nanos - earlier.nanos,
        earlier.nanos >= now.nanos ==> now.since(earlier) == 0,
{
}

/// Law: a source may owe hints for thirty minutes and bootstrap may last for one
/// hour, in nanoseconds.
pub proof fn law_limits_in_nanoseconds()
    ensures
        NANOS_PER_SEC == 1_000_000_000,
        PENDING_VERIFY_MAX_AGE == 1_800_000_000_000,
        CAPACITY_REJECT_REDELIVER_TTL == 1_800_000_000_000,
        BOOTSTRAP_MAX_DURATION == 3_600_000_000_000,
{
}

/// Law: of a map of times, those are younger than `ttl` that lie less than `ttl`
/// nanoseconds before `now`, or after it; they keep their times.
pub proof fn law_younger_entries(
    times: Map<PeerId, Timestamp>,
    now: Timestamp,
    ttl: nat,
    source: PeerId,
)
    ensures
        younger_than(times, now, ttl).contains_key(source) <==> {
            &&& times.contains_key(source)
            &&& ttl > 0
            &&& now.nanos - times[source].nanos < ttl
        },
        younger_than(times, now, ttl).contains_key(source) ==> younger_than(
            times,
            now,
            ttl,
        )[source] == times[source],
{
}

/// Law: the view of a state shows each of its fields.
pub proof fn law_state_shows_its_fields(state: BootstrapState)
    ensures
        state@.drained == state.drained,
        state@.pending_peer_requests == state.pending_peer_requests,
        state@.pending_keys == state.pending_keys@,
        state@.capacity_rejected_sources == state.capacity_rejected_sources@,
        state@.bootstrap_started_at == state.bootstrap_started_at,
{
}

/// Law: a key is in the pipeline if and only if it waits for verification, waits
/// to be fetched or is being fetched.
pub proof fn law_pipeline_is_the_three_queues(queues: ReplicationQueues, key: XorName)
    ensures
        queues@.contains(key) <==> queues.pending_verify@.contains(key)
            || queues.fetch_queue@.contains(key) || queues.in_flight_fetch@.contains(key),
{
}

/// Law: a bootstrap that starts is not drained, has no request pending, has
/// discovered no key, and no source owes it anything.
pub proof fn law_fresh_state_is_empty(
    started_at: Timestamp,
    key: XorName,
    source: PeerId,
)
    ensures
        !BootstrapView::fresh(started_at).drained,
        BootstrapView::fresh(started_at).pending_peer_requests == 0,
        !BootstrapView::fresh(started_at).pending_keys.contains(key),
        !BootstrapView::fresh(started_at).capacity_rejected_sources.contains_key(source),
        BootstrapView::fresh(started_at).bootstrap_started_at == started_at,
{
}

// ---------------------------------------------------------------------------
// When bootstrap is drained
// ---------------------------------------------------------------------------
/// Law: a check finds bootstrap drained if and only if it was drained before, an
/// hour or more has passed since its start, or nothing is outstanding: no request
/// is pending, every source that owes hints was first rejected thirty minutes ago
/// or earlier, and no discovered key is in the pipeline. It records what it finds.
pub proof fn law_when_a_check_drains(state: BootstrapView, pipeline: Set<XorName>, now: Timestamp)
    ensures
        state.drains(pipeline, now) <==> {
            ||| state.drained
            ||| now.nanos - state.bootstrap_started_at.nanos >= 3_600_000_000_000
            ||| {
                &&& state.pending_peer_requests == 0
                &&& forall|source: PeerId| #[trigger]
                    state.capacity_rejected_sources.contains_key(source) ==> now.nanos
                        - state.capacity_rejected_sources[source].nanos >= 1_800_000_000_000
                &&& forall|key: XorName| #[trigger]
                    state.pending_keys.contains(key) ==> !pipeline.contains(key)
            }
        },
        state.checked(pipeline, now).drained == state.drains(pipeline, now),
{
    let blocking = state.blocking_sources(now);
    assert(blocking == Map::<PeerId, Timestamp>::empty() <==> forall|source: PeerId| #[trigger]
        state.capacity_rejected_sources.contains_key(source) ==> now.nanos
            - state.capacity_rejected_sources[source].nanos >= 1_800_000_000_000) by {
        if blocking == Map::<PeerId, Timestamp>::empty() {
            assert forall|source: PeerId| #[trigger]
                state.capacity_rejected_sources.contains_key(source) implies now.nanos
                - state.capacity_rejected_sources[source].nanos >= 1_800_000_000_000 by {
                assert(!blocking.contains_key(source));
            }
        } else if forall|source: PeerId| #[trigger]
            state.capacity_rejected_sources.contains_key(source) ==> now.nanos
                - state.capacity_rejected_sources[source].nanos >= 1_800_000_000_000 {
            assert(blocking =~= Map::<PeerId, Timestamp>::empty());
        }
    }
    assert(state.pending_keys.disjoint(pipeline) <==> forall|key: XorName| #[trigger]
        state.pending_keys.contains(key) ==> !pipeline.contains(key));
}

/// Law: within the hour, outstanding work of any kind keeps the drain of an
/// undrained bootstrap open: a pending request, a source first rejected less than
/// thirty minutes ago, or a discovered key in the pipeline.
pub proof fn law_outstanding_work_blocks_within_the_hour(
    state: BootstrapView,
    pipeline: Set<XorName>,
    now: Timestamp,
    source: PeerId,
    key: XorName,
)
    requires
        !state.drained,
        now.nanos < state.bootstrap_started_at.nanos + BOOTSTRAP_MAX_DURATION,
        ({
            ||| state.pending_peer_requests > 0
            ||| state.capacity_rejected_sources.contains_key(source) && now.nanos
                < state.capacity_rejected_sources[source].nanos + CAPACITY_REJECT_REDELIVER_TTL
            ||| state.pending_keys.contains(key) && pipeline.contains(key)
        }),
    ensures
        !state.past_deadline(now),
        !state.drains(pipeline, now),
        !state.checked(pipeline, now).drained,
{
    law_when_a_check_drains(state, pipeline, now);
}

/// Law: the deadline has passed if and only if the clock shows an hour or more
/// above the start of bootstrap.
pub proof fn law_deadline_is_an_hour_after_the_start(state: BootstrapView, now: Timestamp)
    ensures
        state.past_deadline(now) <==> now.nanos >= state.bootstrap_started_at.nanos
            + BOOTSTRAP_MAX_DURATION,
{
}

/// Law: a source that was rejected and stays silent holds up a bootstrap without
/// other work for exactly the thirty minutes after its first rejection, whenever
/// that was: within the hour, a check finds bootstrap drained if and only if they
/// have passed.
pub proof fn law_silent_source_blocks_for_its_ttl(
    state: BootstrapView,
    source: PeerId,
    first: Timestamp,
    pipeline: Set<XorName>,
    now: Timestamp,
)
    requires
        !state.drained,
        state.pending_peer_requests == 0,
        forall|other: PeerId| !#[trigger] state.capacity_rejected_sources.contains_key(other),
        forall|key: XorName| #[trigger]
            state.pending_keys.contains(key) ==> !pipeline.contains(key),
        now.nanos < state.bootstrap_started_at.nanos + BOOTSTRAP_MAX_DURATION,
    ensures
        state.noted(source, first).drains(pipeline, now) <==> now.nanos >= first.nanos
            + CAPACITY_REJECT_REDELIVER_TTL,
        now.nanos >= first.nanos + CAPACITY_REJECT_REDELIVER_TTL ==> !state.noted(
            source,
            first,
        ).checked(pipeline, now).capacity_rejected_sources.contains_key(source),
{
    let noted = state.noted(source, first);
    law_when_a_check_drains(noted, pipeline, now);
    assert(noted.capacity_rejected_sources.contains_key(source));
    assert(noted.capacity_rejected_sources[source] == first);
}

/// Law: what a check leaves. The requests, the keys and the start stay. A source
/// is still recorded if and only if it was and the check did not drop it; it drops
/// those first rejected thirty minutes ago or earlier, and does so only within the
/// hour, in a bootstrap that is not drained and has no request pending. The times
/// of the sources that stay do not change.
pub proof fn law_what_a_check_leaves(
    state: BootstrapView,
    pipeline: Set<XorName>,
    now: Timestamp,
    source: PeerId,
)
    ensures
        ({
            let after = state.checked(pipeline, now);
            let dropped = {
                &&& !state.drained
                &&& now.nanos - state.bootstrap_started_at.nanos < 3_600_000_000_000
                &&& state.pending_peer_requests == 0
                &&& now.nanos - state.capacity_rejected_sources[source].nanos >= 1_800_000_000_000
            };
            &&& after.pending_peer_requests == state.pending_peer_requests
            &&& after.pending_keys == state.pending_keys
            &&& after.bootstrap_started_at == state.bootstrap_started_at
            &&& after.capacity_rejected_sources.contains_key(source)
                <==> state.capacity_rejected_sources.contains_key(source) && !dropped
            &&& after.capacity_rejected_sources.contains_key(source)
                ==> after.capacity_rejected_sources[source]
                == state.capacity_rejected_sources[source]
        }),
{
}

// ---------------------------------------------------------------------------
// What the other operations do
// ---------------------------------------------------------------------------
/// Law: only the explicit mark and a check complete bootstrap.
pub proof fn law_only_mark_and_check_complete(state: BootstrapView, op: BootstrapOp)
    requires
        !(op is Mark),
        !(op is Check),
    ensures
        apply(state, op).drained == state.drained,
{
}

/// Law: without a mark or a check bootstrap is never drained, however many other
/// operations there are.
pub proof fn law_nothing_else_drains(state: BootstrapView, ops: Seq<BootstrapOp>)
    requires
        forall|i: int| 0 <= i < ops.len() ==> !(#[trigger] ops[i] is Mark) && !(ops[i] is Check),
    ensures
        run(state, ops).drained == state.drained,
    decreases ops.len(),
{
    if ops.len() != 0 {
        assert(!(ops[0] is Mark) && !(ops[0] is Check));
        assert forall|i: int| 0 <= i < ops.drop_first().len() implies !(
        #[trigger] ops.drop_first()[i] is Mark) && !(ops.drop_first()[i] is Check) by {
            assert(!(ops[i + 1] is Mark) && !(ops[i + 1] is Check));
        }
        law_nothing_else_drains(apply(state, ops.first()), ops.drop_first());
    }
}

/// Law: the mark completes bootstrap and changes nothing else.
pub proof fn law_mark_completes(state: BootstrapView)
    ensures
        state.marked().drained,
        state.marked().pending_peer_requests == state.pending_peer_requests,
        state.marked().pending_keys == state.pending_keys,
        state.marked().capacity_rejected_sources == state.capacity_rejected_sources,
        state.marked().bootstrap_started_at == state.bootstrap_started_at,
{
}

/// Law: keys that are tracked are waited for. After tracking, a key is tracked if
/// and only if it was before or is among the new ones, and nothing else has
/// changed; so within the hour a check of an undrained bootstrap with one of them
/// in the pipeline does not find it drained.
pub proof fn law_tracked_keys_are_waited_for(
    state: BootstrapView,
    keys: Set<XorName>,
    key: XorName,
    pipeline: Set<XorName>,
    now: Timestamp,
)
    ensures
        state.tracking(keys).pending_keys.contains(key) <==> state.pending_keys.contains(key)
            || keys.contains(key),
        state.tracking(keys).drained == state.drained,
        state.tracking(keys).pending_peer_requests == state.pending_peer_requests,
        state.tracking(keys).capacity_rejected_sources == state.capacity_rejected_sources,
        state.tracking(keys).bootstrap_started_at == state.bootstrap_started_at,
        ({
            &&& !state.drained
            &&& now.nanos < state.bootstrap_started_at.nanos + BOOTSTRAP_MAX_DURATION
            &&& keys.contains(key) || state.pending_keys.contains(key)
            &&& pipeline.contains(key)
        }) ==> !state.tracking(keys).drains(pipeline, now),
{
    law_when_a_check_drains(state.tracking(keys), pipeline, now);
}

/// Law: requests are counted one by one. Sending raises the number pending by what
/// was sent, completing lowers it by what completed and stops at none, and nothing
/// else changes. So as long as more were pending or sent than completed, the
/// difference is pending, and within the hour a check of an undrained bootstrap
/// does not find it drained.
pub proof fn law_requests_are_counted(
    state: BootstrapView,
    sent: nat,
    completed: nat,
    pipeline: Set<XorName>,
    now: Timestamp,
)
    ensures
        state.incremented(sent).pending_peer_requests == state.pending_peer_requests + sent,
        state.incremented(sent).drained == state.drained,
        state.incremented(sent).pending_keys == state.pending_keys,
        state.incremented(sent).capacity_rejected_sources == state.capacity_rejected_sources,
        state.incremented(sent).bootstrap_started_at == state.bootstrap_started_at,
        completed <= state.pending_peer_requests ==> state.decremented(
            completed,
        ).pending_peer_requests == state.pending_peer_requests - completed,
        completed >= state.pending_peer_requests ==> state.decremented(
            completed,
        ).pending_peer_requests == 0,
        state.decremented(completed).drained == state.drained,
        state.decremented(completed).pending_keys == state.pending_keys,
        state.decremented(completed).capacity_rejected_sources == state.capacity_rejected_sources,
        state.decremented(completed).bootstrap_started_at == state.bootstrap_started_at,
        completed < state.pending_peer_requests + sent ==> {
            let after = state.incremented(sent).decremented(completed);
            &&& after.pending_peer_requests == state.pending_peer_requests + sent - completed
            &&& !state.drained && now.nanos < state.bootstrap_started_at.nanos
                + BOOTSTRAP_MAX_DURATION ==> !after.drains(pipeline, now)
        },
{
    law_when_a_check_drains(state.incremented(sent).decremented(completed), pipeline, now);
}

/// Law: a source owes hints from its rejection on, since the time of the first
/// one, and until it is cleared. Neither operation touches another source or
/// anything else.
pub proof fn law_note_and_clear_one_source(
    state: BootstrapView,
    source: PeerId,
    now: Timestamp,
    other: PeerId,
)
    ensures
        ({
            let noted = state.noted(source, now);
            &&& noted.capacity_rejected_sources.contains_key(other) <==> other == source
                || state.capacity_rejected_sources.contains_key(other)
            &&& state.capacity_rejected_sources.contains_key(other)
                ==> noted.capacity_rejected_sources[other]
                == state.capacity_rejected_sources[other]
            &&& !state.capacity_rejected_sources.contains_key(source)
                ==> noted.capacity_rejected_sources[source] == now
            &&& noted.drained == state.drained
            &&& noted.pending_peer_requests == state.pending_peer_requests
            &&& noted.pending_keys == state.pending_keys
            &&& noted.bootstrap_started_at == state.bootstrap_started_at
        }),
        ({
            let cleared = state.cleared(source);
            &&& cleared.capacity_rejected_sources.contains_key(other) <==> other != source
                && state.capacity_rejected_sources.contains_key(other)
            &&& cleared.capacity_rejected_sources.contains_key(other)
                ==> cleared.capacity_rejected_sources[other]
                == state.capacity_rejected_sources[other]
            &&& cleared.drained == state.drained
            &&& cleared.pending_peer_requests == state.pending_peer_requests
            &&& cleared.pending_keys == state.pending_keys
            &&& cleared.bootstrap_started_at == state.bootstrap_started_at
        }),
{
}

} // verus!
