use ant_node::replication::bootstrap::{
    check_bootstrap_drained, clear_capacity_rejected, decrement_pending_requests, drain_decision,
    increment_pending_requests, mark_bootstrap_drained, note_capacity_rejected,
    note_capacity_rejected_at, track_discovered_keys, BootstrapState, BOOTSTRAP_MAX_DURATION,
    CAPACITY_REJECT_REDELIVER_TTL,
};
use ant_node::replication::clock::{Timestamp, NANOS_PER_SEC};
use ant_node::replication::config::PENDING_VERIFY_MAX_AGE;
use ant_node::replication::key_set::KeySet;
use ant_node::replication::scheduling::ReplicationQueues;
use ant_node::replication::source_times::SourceTimes;
use ant_node::replication::types::{PeerId, XorName};

fn xor_name_from_byte(b: u8) -> XorName {
    [b; 32]
}

fn key_set(names: &[XorName]) -> KeySet {
    let mut set = KeySet::new();
    for name in names {
        set.insert(*name);
    }
    set
}

fn after(start: Timestamp, nanos: u128) -> Timestamp {
    Timestamp {
        nanos: start.nanos + nanos,
    }
}

#[test]
fn check_drained_when_already_drained() {
    let mut state = BootstrapState::new();
    state.drained = true;
    state.pending_peer_requests = 5;
    let queues = ReplicationQueues::new();

    assert!(
        check_bootstrap_drained(&mut state, &queues),
        "should be drained when flag is already set"
    );
}

#[test]
fn check_drained_blocked_by_pending_requests() {
    let mut state = BootstrapState::new();
    state.pending_peer_requests = 2;
    let queues = ReplicationQueues::new();

    assert!(
        !check_bootstrap_drained(&mut state, &queues),
        "should not drain with pending requests"
    );
}

#[test]
fn check_drained_transitions_when_all_work_done() {
    let mut state = BootstrapState::new();
    state.pending_keys = key_set(&[xor_name_from_byte(0x01)]);
    let queues = ReplicationQueues::new();

    // Key 0x01 is not in any queue, so bootstrap should drain.
    assert!(check_bootstrap_drained(&mut state, &queues));
    assert!(state.drained, "drained flag should be set");
}

#[test]
fn check_drained_blocked_by_queued_key() {
    let mut state = BootstrapState::new();
    state.pending_keys = key_set(&[xor_name_from_byte(0x01)]);
    let mut queues = ReplicationQueues::new();

    // Put the bootstrap key into the pending-verify queue.
    queues.pending_verify.insert(xor_name_from_byte(0x01));

    assert!(
        !check_bootstrap_drained(&mut state, &queues),
        "should not drain while bootstrap key is still in pipeline"
    );
}

#[test]
fn key_in_any_queue_blocks_and_other_keys_do_not() {
    let key = xor_name_from_byte(0x01);
    let other = xor_name_from_byte(0x02);

    let mut state = BootstrapState::new();
    state.pending_keys = key_set(&[key]);
    let now = state.bootstrap_started_at;

    let mut queues = ReplicationQueues::new();
    queues.fetch_queue.insert(key);
    assert!(!drain_decision(&mut state, &queues, now));
    assert!(!state.drained);

    let mut queues = ReplicationQueues::new();
    queues.in_flight_fetch.insert(key);
    assert!(!drain_decision(&mut state, &queues, now));

    let mut queues = ReplicationQueues::new();
    queues.pending_verify.insert(other);
    queues.fetch_queue.insert(other);
    queues.in_flight_fetch.insert(other);
    assert!(drain_decision(&mut state, &queues, now));
    assert!(state.drained);
}

#[test]
fn mark_bootstrap_drained_sets_flag() {
    let mut state = BootstrapState::new();
    mark_bootstrap_drained(&mut state);
    assert!(state.drained);
}

#[test]
fn track_discovered_keys_accumulates() {
    let mut state = BootstrapState::new();
    let set_a = key_set(&[xor_name_from_byte(0x01), xor_name_from_byte(0x02)]);
    let set_b = key_set(&[xor_name_from_byte(0x02), xor_name_from_byte(0x03)]);

    track_discovered_keys(&mut state, &set_a);
    track_discovered_keys(&mut state, &set_b);

    assert_eq!(
        state.pending_keys.len(),
        3,
        "should deduplicate across calls"
    );
    assert!(state.pending_keys.contains(&xor_name_from_byte(0x01)));
    assert!(state.pending_keys.contains(&xor_name_from_byte(0x02)));
    assert!(state.pending_keys.contains(&xor_name_from_byte(0x03)));
    assert!(!state.pending_keys.contains(&xor_name_from_byte(0x04)));
}

#[test]
fn increment_and_decrement_pending_requests() {
    let mut state = BootstrapState::new();

    increment_pending_requests(&mut state, 5);
    assert_eq!(state.pending_peer_requests, 5);

    decrement_pending_requests(&mut state, 3);
    assert_eq!(state.pending_peer_requests, 2);

    // Saturating subtraction.
    decrement_pending_requests(&mut state, 10);
    assert_eq!(state.pending_peer_requests, 0, "should saturate at zero");
}

/// A source that previously had capacity-rejected hints must be retired from the
/// "not yet drained" list when it completes a later admission cycle with zero
/// rejections.
#[test]
fn capacity_rejected_clears_on_clean_cycle() {
    let mut state = BootstrapState::new();
    let queues = ReplicationQueues::new();
    let source = PeerId::from_bytes([7u8; 32]);

    // First cycle: this source overflowed, drain blocked.
    note_capacity_rejected(&mut state, source);
    assert!(
        !check_bootstrap_drained(&mut state, &queues),
        "drain must be blocked while a source has outstanding capacity rejections"
    );

    // Second cycle from the SAME source: zero rejections -> clear it.
    clear_capacity_rejected(&mut state, &source);
    assert!(
        check_bootstrap_drained(&mut state, &queues),
        "drain must complete once the source's outstanding rejections are cleared"
    );
}

/// One source's clean cycle must NOT clear a different source's outstanding
/// rejections.
#[test]
fn capacity_rejected_is_per_source() {
    let mut state = BootstrapState::new();
    let queues = ReplicationQueues::new();
    let source_a = PeerId::from_bytes([0xAA; 32]);
    let source_b = PeerId::from_bytes([0xBB; 32]);

    note_capacity_rejected(&mut state, source_a);
    note_capacity_rejected(&mut state, source_b);
    assert!(!check_bootstrap_drained(&mut state, &queues));

    // Only A clears; B still owes us re-hints.
    clear_capacity_rejected(&mut state, &source_a);
    assert!(
        !check_bootstrap_drained(&mut state, &queues),
        "B's outstanding rejections must keep drain blocked"
    );

    clear_capacity_rejected(&mut state, &source_b);
    assert!(check_bootstrap_drained(&mut state, &queues));
}

/// A source that capacity-rejected once then went silent must NOT block drain
/// past the per-source re-deliver TTL.
#[test]
fn stalled_capacity_rejected_source_cannot_block_drain_forever() {
    let mut state = BootstrapState::new();
    let t0 = state.bootstrap_started_at;
    let source = PeerId::from_bytes([9u8; 32]);
    // Source overflowed once, at t0, and never re-delivered.
    state.capacity_rejected_sources.insert(source, t0);
    let queues = ReplicationQueues::new();

    // Just before the TTL: still blocked -- the honest re-delivery window is
    // intact, so a source that is merely slow to re-hint is not evicted.
    let before_ttl = after(
        t0,
        CAPACITY_REJECT_REDELIVER_TTL.saturating_sub(NANOS_PER_SEC),
    );
    assert!(
        !drain_decision(&mut state, &queues, before_ttl),
        "within the re-deliver TTL the source must still block drain"
    );
    assert!(
        state.capacity_rejected_sources.contains_key(&source),
        "source must not be evicted before the TTL"
    );

    // Past the TTL: the stalled source is evicted and, with no other
    // outstanding work, bootstrap drains.
    let after_ttl = after(t0, CAPACITY_REJECT_REDELIVER_TTL + NANOS_PER_SEC);
    assert!(
        drain_decision(&mut state, &queues, after_ttl),
        "a stalled/departed capacity-rejected source must not block drain past the TTL"
    );
    assert!(state.drained, "drained flag must be set");
    assert!(
        state.capacity_rejected_sources.is_empty(),
        "the stalled source must be evicted at the TTL"
    );
}

/// The absolute deadline force-completes bootstrap even when a source is still
/// actively (freshly) capacity-rejecting.
#[test]
fn bootstrap_force_completes_at_absolute_deadline() {
    let mut state = BootstrapState::new();
    let t0 = state.bootstrap_started_at;
    let now = after(t0, BOOTSTRAP_MAX_DURATION + NANOS_PER_SEC);
    // A FRESH rejection (timestamped `now`, nowhere near its own TTL): only
    // the absolute deadline can complete this bootstrap.
    let flooder = PeerId::from_bytes([0xEE; 32]);
    state.capacity_rejected_sources.insert(flooder, now);
    let queues = ReplicationQueues::new();

    assert!(
        drain_decision(&mut state, &queues, now),
        "bootstrap must force-complete once past BOOTSTRAP_MAX_DURATION"
    );
    assert!(state.drained, "drained flag must be set at the deadline");
    // The deadline short-circuits before TTL eviction runs, so the fresh
    // flooder is still recorded.
    assert!(
        state.capacity_rejected_sources.contains_key(&flooder),
        "deadline completion must not depend on evicting the flooder"
    );
}

#[test]
fn deadline_holds_for_every_later_check() {
    let queues = ReplicationQueues::new();
    for hours in 1..5u128 {
        let mut state = BootstrapState::new();
        increment_pending_requests(&mut state, 2);
        let now = after(state.bootstrap_started_at, hours * BOOTSTRAP_MAX_DURATION);
        assert!(drain_decision(&mut state, &queues, now));
        assert!(drain_decision(&mut state, &queues, after(now, NANOS_PER_SEC)));
    }
}

#[test]
fn limits_have_their_values() {
    assert_eq!(NANOS_PER_SEC, 1_000_000_000);
    assert_eq!(PENDING_VERIFY_MAX_AGE, 1_800_000_000_000);
    assert_eq!(CAPACITY_REJECT_REDELIVER_TTL, PENDING_VERIFY_MAX_AGE);
    assert_eq!(BOOTSTRAP_MAX_DURATION, 3_600_000_000_000);
    assert_eq!(BOOTSTRAP_MAX_DURATION, 2 * CAPACITY_REJECT_REDELIVER_TTL);
}

#[test]
fn both_limits_are_reached_exactly_at_their_end() {
    let queues = ReplicationQueues::new();

    // One nanosecond before the deadline a pending request still blocks.
    let mut state = BootstrapState::new();
    let t0 = state.bootstrap_started_at;
    state.pending_peer_requests = 1;
    assert!(!drain_decision(
        &mut state,
        &queues,
        after(t0, BOOTSTRAP_MAX_DURATION - 1)
    ));
    assert!(drain_decision(
        &mut state,
        &queues,
        after(t0, BOOTSTRAP_MAX_DURATION)
    ));

    // One nanosecond before its time is up a source still blocks.
    let mut state = BootstrapState::new();
    let t0 = state.bootstrap_started_at;
    let source = PeerId::from_bytes([1; 32]);
    note_capacity_rejected_at(&mut state, source, t0);
    assert!(!drain_decision(
        &mut state,
        &queues,
        after(t0, CAPACITY_REJECT_REDELIVER_TTL - 1)
    ));
    assert!(drain_decision(
        &mut state,
        &queues,
        after(t0, CAPACITY_REJECT_REDELIVER_TTL)
    ));
}

#[test]
fn time_before_the_start_counts_as_none() {
    let mut state = BootstrapState::new();
    state.bootstrap_started_at = Timestamp {
        nanos: 2 * BOOTSTRAP_MAX_DURATION,
    };
    state.pending_peer_requests = 1;
    let queues = ReplicationQueues::new();
    assert!(!drain_decision(&mut state, &queues, Timestamp { nanos: 0 }));

    let early = Timestamp { nanos: 3 };
    let late = Timestamp { nanos: 10 };
    assert_eq!(late.saturating_duration_since(early), 7);
    assert_eq!(early.saturating_duration_since(late), 0);
}

#[test]
fn drained_is_final() {
    let mut state = BootstrapState::new();
    let t0 = state.bootstrap_started_at;
    let mut queues = ReplicationQueues::new();
    assert!(drain_decision(&mut state, &queues, t0));

    increment_pending_requests(&mut state, 3);
    note_capacity_rejected_at(&mut state, PeerId::from_bytes([2; 32]), t0);
    track_discovered_keys(&mut state, &key_set(&[xor_name_from_byte(9)]));
    queues.pending_verify.insert(xor_name_from_byte(9));
    assert!(drain_decision(&mut state, &queues, t0));
    assert!(state.drained);
    assert_eq!(state.capacity_rejected_sources.len(), 1);
}

#[test]
fn flooding_does_not_move_the_first_rejection() {
    let mut state = BootstrapState::new();
    let t0 = state.bootstrap_started_at;
    let flooder = PeerId::from_bytes([3; 32]);
    let queues = ReplicationQueues::new();

    for minute in 0..31u128 {
        note_capacity_rejected_at(&mut state, flooder, after(t0, minute * 60 * NANOS_PER_SEC));
    }
    assert_eq!(state.capacity_rejected_sources.len(), 1);
    assert_eq!(
        state
            .capacity_rejected_sources
            .get(&flooder)
            .map(|time| time.nanos),
        Some(t0.nanos)
    );
    assert!(drain_decision(
        &mut state,
        &queues,
        after(t0, CAPACITY_REJECT_REDELIVER_TTL)
    ));
}

#[test]
fn first_rejection_stays_through_checks_within_its_time() {
    let mut state = BootstrapState::new();
    let t0 = state.bootstrap_started_at;
    let source = PeerId::from_bytes([0x21; 32]);
    let other = PeerId::from_bytes([0x22; 32]);
    let queues = ReplicationQueues::new();
    note_capacity_rejected_at(&mut state, source, t0);
    for minute in 1..30u128 {
        let now = after(t0, minute * 60 * NANOS_PER_SEC);
        note_capacity_rejected_at(&mut state, other, now);
        clear_capacity_rejected(&mut state, &other);
        note_capacity_rejected_at(&mut state, source, now);
        assert!(!drain_decision(&mut state, &queues, now));
    }
    assert_eq!(
        state
            .capacity_rejected_sources
            .get(&source)
            .map(|time| time.nanos),
        Some(t0.nanos)
    );
}

#[test]
fn expired_source_is_dropped_while_a_fresh_one_still_blocks() {
    let mut state = BootstrapState::new();
    let t0 = state.bootstrap_started_at;
    let stalled = PeerId::from_bytes([4; 32]);
    let fresh = PeerId::from_bytes([5; 32]);
    let queues = ReplicationQueues::new();
    note_capacity_rejected_at(&mut state, stalled, t0);
    note_capacity_rejected_at(&mut state, fresh, after(t0, NANOS_PER_SEC));

    let now = after(t0, CAPACITY_REJECT_REDELIVER_TTL);
    for _ in 0..2 {
        assert!(!drain_decision(&mut state, &queues, now));
        assert!(!state.capacity_rejected_sources.contains_key(&stalled));
        assert!(state.capacity_rejected_sources.contains_key(&fresh));
    }
}

#[test]
fn pending_request_keeps_expired_sources_recorded() {
    let mut state = BootstrapState::new();
    let t0 = state.bootstrap_started_at;
    let stalled = PeerId::from_bytes([6; 32]);
    let queues = ReplicationQueues::new();
    note_capacity_rejected_at(&mut state, stalled, t0);
    increment_pending_requests(&mut state, 1);

    let now = after(t0, CAPACITY_REJECT_REDELIVER_TTL);
    assert!(!drain_decision(&mut state, &queues, now));
    assert!(state.capacity_rejected_sources.contains_key(&stalled));

    decrement_pending_requests(&mut state, 1);
    assert!(drain_decision(&mut state, &queues, now));
    assert!(state.capacity_rejected_sources.is_empty());
}

#[test]
fn waiting_and_less_work_keep_a_drain() {
    let queues = ReplicationQueues::new();
    let mut busy = ReplicationQueues::new();
    busy.fetch_queue.insert(xor_name_from_byte(8));
    for (queues, nanos) in [(&busy, 0), (&busy, 1), (&queues, 0)] {
        let mut state = BootstrapState::new();
        state.pending_keys = key_set(&[xor_name_from_byte(7)]);
        let now = after(state.bootstrap_started_at, nanos);
        assert!(drain_decision(&mut state, queues, now));
    }
}

#[test]
fn clearing_undoes_noting_and_leaves_others() {
    let mut state = BootstrapState::new();
    let t0 = state.bootstrap_started_at;
    let a = PeerId::from_bytes([0xA0; 32]);
    let b = PeerId::from_bytes([0xB0; 32]);

    clear_capacity_rejected(&mut state, &a);
    assert!(state.capacity_rejected_sources.is_empty());

    note_capacity_rejected_at(&mut state, b, t0);
    note_capacity_rejected_at(&mut state, a, after(t0, 5));
    clear_capacity_rejected(&mut state, &a);
    assert!(!state.capacity_rejected_sources.contains_key(&a));
    assert_eq!(state.capacity_rejected_sources.len(), 1);
    assert_eq!(
        state
            .capacity_rejected_sources
            .get(&b)
            .map(|time| time.nanos),
        Some(t0.nanos)
    );

    // After a clean cycle a new rejection starts a new window.
    note_capacity_rejected_at(&mut state, a, after(t0, 9));
    assert_eq!(
        state
            .capacity_rejected_sources
            .get(&a)
            .map(|time| time.nanos),
        Some(t0.nanos + 9)
    );
}

#[test]
fn clock_of_a_state_goes_on() {
    let mut state = BootstrapState::new();
    let first = PeerId::from_bytes([0x11; 32]);
    let second = PeerId::from_bytes([0x12; 32]);
    note_capacity_rejected(&mut state, first);
    for _ in 0..1000 {
        note_capacity_rejected(&mut state, first);
    }
    note_capacity_rejected(&mut state, second);
    let a = state.capacity_rejected_sources.get(&first).unwrap().nanos;
    let b = state.capacity_rejected_sources.get(&second).unwrap().nanos;
    assert!(state.bootstrap_started_at.nanos <= a);
    assert!(a <= b);
    // The test takes less than a minute.
    assert!(b < 60 * NANOS_PER_SEC);
}

#[test]
fn key_set_is_a_set() {
    let mut set = KeySet::new();
    assert_eq!(set.len(), 0);
    assert!(set.insert([1; 32]));
    assert!(!set.insert([1; 32]));
    let mut near = [1u8; 32];
    near[31] = 2;
    assert!(!set.contains(&near));
    assert!(set.insert(near));
    assert_eq!(set.len(), 2);
    assert!(!set.is_disjoint(&key_set(&[near])));
    assert!(set.is_disjoint(&key_set(&[[3; 32]])));
}

#[test]
fn source_times_is_a_map() {
    let mut times = SourceTimes::new();
    let a = PeerId::from_bytes([1; 32]);
    let mut near = [1u8; 32];
    near[0] = 0;
    let b = PeerId::from_bytes(near);
    assert!(times.is_empty());
    assert!(times.insert_if_absent(a, Timestamp { nanos: 1 }));
    assert!(!times.insert_if_absent(a, Timestamp { nanos: 2 }));
    assert!(times.get(&b).is_none());
    times.insert(b, Timestamp { nanos: 3 });
    times.insert(a, Timestamp { nanos: 4 });
    assert_eq!(times.len(), 2);
    assert_eq!(times.get(&a).unwrap().nanos, 4);
    assert_eq!(times.get(&b).unwrap().nanos, 3);
    times.retain_younger(Timestamp { nanos: 10 }, 7);
    assert_eq!(times.len(), 1);
    assert!(times.contains_key(&a));
    assert!(times.remove(&a));
    assert!(!times.remove(&a));
    assert!(times.is_empty());
}
