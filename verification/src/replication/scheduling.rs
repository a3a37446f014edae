//! The queues that a discovered key passes through.

use vstd::prelude::*;

use crate::replication::key_set::KeySet;
use crate::replication::types::XorName;

verus! {

/// The keys in each stage of the replication pipeline. Its view is the set of
/// the keys that are in any stage.
pub struct ReplicationQueues {
    /// Keys that wait for verification.
    pub pending_verify: KeySet,
    /// Keys that wait to be fetched.
    pub fetch_queue: KeySet,
    /// Keys that are being fetched.
    pub in_flight_fetch: KeySet,
}

impl View for ReplicationQueues {
    type V = Set<XorName>;

    open spec fn view(&self) -> Set<XorName> {
        self.pending_verify@.union(self.fetch_queue@).union(self.in_flight_fetch@)
    }
}

impl ReplicationQueues {
    /// Empty queues.
    pub fn new() -> (queues: ReplicationQueues)
        ensures
            queues@ == Set::<XorName>::empty(),
    {
        let queues = ReplicationQueues {
            pending_verify: KeySet::new(),
            fetch_queue: KeySet::new(),
            in_flight_fetch: KeySet::new(),
        };
        assert(queues@ =~= Set::<XorName>::empty());
        queues
    }

    /// Whether every key of `keys` has left the pipeline.
    pub fn is_bootstrap_work_empty(&self, keys: &KeySet) -> (empty: bool)
        ensures
            empty == keys@.disjoint(self@),
            empty <==> forall|key: XorName| #[trigger]
                keys@.contains(key) ==> {
                    &&& !self.pending_verify@.contains(key)
                    &&& !self.fetch_queue@.contains(key)
                    &&& !self.in_flight_fetch@.contains(key)
                },
    {
        keys.is_disjoint(&self.pending_verify) && keys.is_disjoint(&self.fetch_queue)
            && keys.is_disjoint(&self.in_flight_fetch)
    }
}

} // verus!
