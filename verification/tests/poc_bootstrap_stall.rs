//! A peer that keeps overflowing its admission quota while a node bootstraps.

use std::collections::{HashMap, HashSet};

use ant_node::replication::bootstrap::{
    check_bootstrap_drained, clear_capacity_rejected, drain_decision, note_capacity_rejected,
    BootstrapState, CAPACITY_REJECT_REDELIVER_TTL,
};
use ant_node::replication::clock::Timestamp;
use ant_node::replication::scheduling::ReplicationQueues;
use ant_node::replication::types::PeerId;

/// Hints of one peer that wait for verification at most.
const MAX_PENDING_VERIFY_PER_PEER: usize = 64;

fn peer(b: u8) -> PeerId {
    let mut bytes = [0u8; 32];
    bytes[0] = b;
    PeerId::from_bytes(bytes)
}

fn unique_key(i: u32) -> [u8; 32] {
    let mut k = [0u8; 32];
    k[..4].copy_from_slice(&i.to_le_bytes());
    k
}

/// Admission to the verification queue with a quota for each peer.
struct Admission {
    queues: ReplicationQueues,
    pending_per_sender: HashMap<[u8; 32], HashSet<[u8; 32]>>,
}

impl Admission {
    fn new() -> Admission {
        Admission {
            queues: ReplicationQueues::new(),
            pending_per_sender: HashMap::new(),
        }
    }

    /// Whether the hint was turned away.
    fn rejects(&mut self, key: [u8; 32], sender: PeerId) -> bool {
        if self.queues.pending_verify.contains(&key) {
            return false;
        }
        let pending = self.pending_per_sender.entry(sender.bytes).or_default();
        if pending.len() >= MAX_PENDING_VERIFY_PER_PEER {
            return true;
        }
        pending.insert(key);
        self.queues.pending_verify.insert(key);
        false
    }
}

/// Simulates one inbound sync request from `source` with `hint_count` hints;
/// returns the number that were turned away.
fn simulate_inbound_sync(
    admission: &mut Admission,
    state: &mut BootstrapState,
    source: PeerId,
    key_offset: u32,
    hint_count: u32,
) -> usize {
    let mut capacity_rejected_count: usize = 0;
    for i in 0..hint_count {
        if admission.rejects(unique_key(key_offset + i), source) {
            capacity_rejected_count += 1;
        }
    }

    // While bootstrapping, note or clear capacity rejection for this source
    // based on the outcome.
    if capacity_rejected_count > 0 {
        note_capacity_rejected(state, source);
    } else {
        clear_capacity_rejected(state, &source);
    }

    capacity_rejected_count
}

#[test]
fn poc_bootstrap_stall_via_persistent_per_peer_overflow() {
    let mut admission = Admission::new();
    let mut state = BootstrapState::new();

    let attacker = peer(0xAA);

    // Round 1: attacker sends per-peer-cap + 1 hints.
    let mut next_key: u32 = 0;
    let flood = MAX_PENDING_VERIFY_PER_PEER as u32 + 1;
    let rejected =
        simulate_inbound_sync(&mut admission, &mut state, attacker, next_key, flood);
    next_key += flood;
    assert!(
        rejected >= 1,
        "round 1 must over-cap (got {rejected} rejections); test is mis-sized"
    );

    // The ONLY thing preventing drain is `capacity_rejected_sources`.
    assert!(
        !check_bootstrap_drained(&mut state, &admission.queues),
        "bootstrap must NOT drain while attacker has outstanding capacity-rejected hints"
    );

    for round in 0..32 {
        let r = simulate_inbound_sync(&mut admission, &mut state, attacker, next_key, 1);
        next_key += 1;
        assert!(
            r >= 1,
            "round {round}: attacker hint must continue to capacity-reject \
             (per-peer cap still full); got {r}"
        );
        assert!(
            !check_bootstrap_drained(&mut state, &admission.queues),
            "round {round}: bootstrap drained despite attacker still capacity-rejecting"
        );
    }

    assert!(
        state.capacity_rejected_sources.contains_key(&attacker),
        "attacker peer is still in capacity_rejected_sources within the TTL window"
    );
    assert_eq!(
        state.capacity_rejected_sources.len(),
        1,
        "only the attacker is outstanding; honest peers are unaffected"
    );

    // The stall is bounded: it ends with the time of the first overflow.
    let first = state.capacity_rejected_sources.get(&attacker).unwrap();
    let now = Timestamp {
        nanos: first.nanos + CAPACITY_REJECT_REDELIVER_TTL,
    };
    assert!(drain_decision(&mut state, &admission.queues, now));
}

#[test]
fn honest_peer_drains_normally_alongside_attacker() {
    let mut admission = Admission::new();
    let mut state = BootstrapState::new();

    let attacker = peer(0xAA);
    let honest = peer(0x01);

    // Attacker over-caps.
    let flood = MAX_PENDING_VERIFY_PER_PEER as u32 + 1;
    let r_atk = simulate_inbound_sync(&mut admission, &mut state, attacker, 0, flood);
    assert!(r_atk >= 1);

    // Honest peer sends a small clean batch.
    let r_honest = simulate_inbound_sync(&mut admission, &mut state, honest, flood + 100, 16);
    assert_eq!(
        r_honest, 0,
        "honest peer's small batch must NOT capacity-reject -- per-source quota isolates them"
    );

    assert!(
        state.capacity_rejected_sources.contains_key(&attacker),
        "attacker is outstanding"
    );
    assert!(
        !state.capacity_rejected_sources.contains_key(&honest),
        "honest peer is NOT outstanding; its clean cycle cleared (or never created) its entry"
    );
}
