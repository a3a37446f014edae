//! A map from peers to points in time.

use vstd::prelude::*;

use crate::replication::clock::Timestamp;
use crate::replication::types::PeerId;

verus! {

/// A map from [`PeerId`]s to [`Timestamp`]s.
pub struct SourceTimes {
    entries: Vec<(PeerId, Timestamp)>,
}

/// No peer has two entries.
spec fn distinct_sources(entries: Seq<(PeerId, Timestamp)>) -> bool {
    forall|i: int, j: int|
        0 <= i < j < entries.len() ==> (#[trigger] entries[i]).0 != (#[trigger] entries[j]).0
}

/// Where the entry of `source` stands.
spec fn position(entries: Seq<(PeerId, Timestamp)>, source: PeerId) -> int {
    choose|i: int| 0 <= i < entries.len() && (#[trigger] entries[i]).0 == source
}

/// The map that a list of entries stands for.
spec fn as_map(entries: Seq<(PeerId, Timestamp)>) -> Map<PeerId, Timestamp> {
    Map::new(
        |source: PeerId|
            exists|i: int| 0 <= i < entries.len() && (#[trigger] entries[i]).0 == source,
        |source: PeerId| entries[position(entries, source)].1,
    )
}

/// Each entry of a list without doubles is in its map.
proof fn lemma_entry_in_map(entries: Seq<(PeerId, Timestamp)>, i: int)
    requires
        distinct_sources(entries),
        0 <= i < entries.len(),
    ensures
        as_map(entries).contains_key(entries[i].0),
        as_map(entries)[entries[i].0] == entries[i].1,
{
    let source = entries[i].0;
    let j = position(entries, source);
    assert(0 <= j < entries.len() && entries[j].0 == source);
    if j < i {
        assert(entries[j].0 != entries[i].0);
    } else if i < j {
        assert(entries[i].0 != entries[j].0);
    }
}

/// A list without doubles has as many entries as its map has keys.
proof fn lemma_map_len(entries: Seq<(PeerId, Timestamp)>)
    requires
        distinct_sources(entries),
    ensures
        as_map(entries).dom().finite(),
        as_map(entries).dom().len() == entries.len(),
{
    let sources = entries.map_values(|entry: (PeerId, Timestamp)| entry.0);
    assert(sources.no_duplicates()) by {
        assert forall|i: int, j: int|
            0 <= i < sources.len() && 0 <= j < sources.len() && i != j implies sources[i]
            != sources[j] by {
            if i < j {
                assert(entries[i].0 != entries[j].0);
            } else {
                assert(entries[j].0 != entries[i].0);
            }
        }
    }
    sources.unique_seq_to_set();
    vstd::seq_lib::seq_to_set_is_finite(sources);
    assert(as_map(entries).dom() =~= sources.to_set()) by {
        assert forall|source: PeerId| #[trigger]
            sources.contains(source) == as_map(entries).dom().contains(source) by {
            if sources.contains(source) {
                let i = choose|i: int| 0 <= i < sources.len() && sources[i] == source;
                assert(entries[i].0 == source);
            }
            if as_map(entries).dom().contains(source) {
                let i = choose|i: int| 0 <= i < entries.len() && (#[trigger] entries[i]).0 == source;
                assert(sources[i] == source);
            }
        }
    }
}

/// The entries of `times` that are less than `ttl` nanoseconds old at `now`.
pub open spec fn younger_than(
    times: Map<PeerId, Timestamp>,
    now: Timestamp,
    ttl: nat,
) -> Map<PeerId, Timestamp> {
    Map::new(
        |source: PeerId| times.contains_key(source) && now.since(times[source]) < ttl,
        |source: PeerId| times[source],
    )
}

impl View for SourceTimes {
    type V = Map<PeerId, Timestamp>;

    closed spec fn view(&self) -> Map<PeerId, Timestamp> {
        as_map(self.entries@)
    }
}

impl SourceTimes {
    /// Each peer has at most one entry.
    #[verifier::type_invariant]
    spec fn distinct(&self) -> bool {
        distinct_sources(self.entries@)
    }

    /// The empty map.
    pub fn new() -> (times: SourceTimes)
        ensures
            times@ == Map::<PeerId, Timestamp>::empty(),
    {
        let times = SourceTimes { entries: Vec::new() };
        assert(times@ =~= Map::<PeerId, Timestamp>::empty());
        times
    }

    /// Where the entry of `source` stands, if it has one.
    fn find(&self, source: &PeerId) -> (found: Option<usize>)
        ensures
            match found {
                Some(i) => i < self.entries.len() && self.entries[i as int].0 == *source,
                None => forall|i: int|
                    0 <= i < self.entries.len() ==> (#[trigger] self.entries[i]).0 != *source,
            },
    {
        let mut i: usize = 0;
        while i < self.entries.len()
            invariant
                i <= self.entries.len(),
                forall|j: int| 0 <= j < i ==> (#[trigger] self.entries[j]).0 != *source,
            decreases self.entries.len() - i,
        {
            if self.entries[i].0.same_as(source) {
                return Some(i);
            }
            i += 1;
        }
        None
    }

    /// Whether `source` has an entry.
    pub fn contains_key(&self, source: &PeerId) -> (found: bool)
        ensures
            found == self@.contains_key(*source),
    {
        self.find(source).is_some()
    }

    /// The time of `source`, if it has an entry.
    pub fn get(&self, source: &PeerId) -> (time: Option<Timestamp>)
        ensures
            time == (if self@.contains_key(*source) {
                Some(self@[*source])
            } else {
                None
            }),
    {
        match self.find(source) {
            Some(i) => {
                proof {
                    use_type_invariant(self);
                    lemma_entry_in_map(self.entries@, i as int);
                }
                Some(self.entries[i].1)
            },
            None => None,
        }
    }

    /// Gives `source` the entry `time` if it has none, and otherwise leaves its
    /// entry as it is. Returns whether an entry was added.
    pub fn insert_if_absent(&mut self, source: PeerId, time: Timestamp) -> (added: bool)
        ensures
            added == !old(self)@.contains_key(source),
            final(self)@ == (if old(self)@.contains_key(source) {
                old(self)@
            } else {
                old(self)@.insert(source, time)
            }),
    {
        if self.contains_key(&source) {
            return false;
        }
        proof {
            use_type_invariant(&*self);
        }
        let ghost before = self.entries@;
        let mut entries: Vec<(PeerId, Timestamp)> = Vec::new();
        std::mem::swap(&mut entries, &mut self.entries);
        entries.push((source, time));
        proof {
            let after = entries@;
            assert(distinct_sources(after)) by {
                assert forall|i: int, j: int| 0 <= i < j < after.len() implies (#[trigger] after[i]).0
                    != (#[trigger] after[j]).0 by {
                    assert(before[i].0 != source);
                }
            }
            assert(as_map(after) =~= as_map(before).insert(source, time)) by {
                assert(after[before.len() as int].0 == source);
                lemma_entry_in_map(after, before.len() as int);
                assert forall|other: PeerId| #[trigger]
                    as_map(before).contains_key(other) implies as_map(after).contains_key(other)
                    && as_map(after)[other] == as_map(before)[other] by {
                    let i = position(before, other);
                    assert(after[i] == before[i]);
                    lemma_entry_in_map(before, i);
                    lemma_entry_in_map(after, i);
                }
                assert forall|other: PeerId| #[trigger]
                    as_map(after).contains_key(other) implies other == source || as_map(
                    before,
                ).contains_key(other) by {
                    let i = position(after, other);
                    if i < before.len() {
                        assert(before[i].0 == other);
                    }
                }
            }
        }
        self.entries = entries;
        true
    }

    /// Removes the entry of `source`; returns whether it had one.
    pub fn remove(&mut self, source: &PeerId) -> (removed: bool)
        ensures
            removed == old(self)@.contains_key(*source),
            final(self)@ == old(self)@.remove(*source),
    {
        match self.find(source) {
            None => {
                assert(self@.remove(*source) =~= self@);
                false
            },
            Some(at) => {
                proof {
                    use_type_invariant(&*self);
                }
                let ghost before = self.entries@;
                let mut entries: Vec<(PeerId, Timestamp)> = Vec::new();
                std::mem::swap(&mut entries, &mut self.entries);
                entries.remove(at);
                proof {
                    let after = entries@;
                    assert(after =~= before.remove(at as int));
                    assert forall|i: int| 0 <= i < after.len() implies #[trigger] after[i]
                        == before[if i < at {
                        i
                    } else {
                        i + 1
                    }] by {}
                    assert(distinct_sources(after));
                    assert(as_map(after) =~= as_map(before).remove(*source)) by {
                        assert forall|other: PeerId| #[trigger]
                            as_map(after).contains_key(other) implies other != *source && as_map(
                            before,
                        ).contains_key(other) && as_map(before)[other] == as_map(after)[other] by {
                            let i = position(after, other);
                            let k = if i < at {
                                i
                            } else {
                                i + 1
                            };
                            assert(before[k] == after[i]);
                            lemma_entry_in_map(after, i);
                            lemma_entry_in_map(before, k);
                        }
                        assert forall|other: PeerId| #[trigger]
                            as_map(before).contains_key(other) && other != *source implies as_map(
                            after,
                        ).contains_key(other) by {
                            let k = position(before, other);
                            let i = if k < at {
                                k
                            } else {
                                k - 1
                            };
                            assert(after[i] == before[k]);
                        }
                    }
                }
                self.entries = entries;
                true
            },
        }
    }

    /// Gives `source` the entry `time`, in place of one that it has.
    pub fn insert(&mut self, source: PeerId, time: Timestamp)
        ensures
            final(self)@ == old(self)@.insert(source, time),
    {
        let ghost before = self@;
        self.remove(&source);
        self.insert_if_absent(source, time);
        assert(before.remove(source).insert(source, time) =~= before.insert(source, time));
    }

    /// Keeps the entries that are less than `ttl` nanoseconds old at `now` and
    /// drops the others.
    pub fn retain_younger(&mut self, now: Timestamp, ttl: u128)
        ensures
            final(self)@ == younger_than(old(self)@, now, ttl as nat),
            forall|source: PeerId| #[trigger]
                final(self)@.contains_key(source) <==> {
                    &&& old(self)@.contains_key(source)
                    &&& ttl > 0
                    &&& now.nanos - old(self)@[source].nanos < ttl
                },
            forall|source: PeerId| #[trigger]
                final(self)@.contains_key(source) ==> final(self)@[source] == old(self)@[source],
    {
        proof {
            use_type_invariant(&*self);
        }
        let ghost before = self.entries@;
        let mut kept: Vec<(PeerId, Timestamp)> = Vec::new();
        let mut i: usize = 0;
        while i < self.entries.len()
            invariant
                i <= self.entries.len(),
                self.entries@ == before,
                distinct_sources(before),
                distinct_sources(kept@),
                forall|k: int|
                    0 <= k < kept.len() ==> exists|j: int|
                        0 <= j < i && #[trigger] before[j] == #[trigger] kept[k],
                forall|k: int| 0 <= k < kept.len() ==> now.since((#[trigger] kept[k]).1) < ttl,
                forall|j: int|
                    0 <= j < i && now.since((#[trigger] before[j]).1) < ttl ==> kept@.contains(
                        before[j],
                    ),
            decreases self.entries.len() - i,
        {
            let entry = self.entries[i];
            let ghost kept_before = kept@;
            if now.saturating_duration_since(entry.1) < ttl {
                kept.push(entry);
                proof {
                    assert(kept@[kept_before.len() as int] == before[i as int]);
                    assert forall|k: int| 0 <= k < kept_before.len() implies kept@.contains(
                        #[trigger] kept_before[k],
                    ) by {
                        assert(kept@[k] == kept_before[k]);
                    }
                }
            }
            i += 1;
        }
        proof {
            let after = kept@;
            assert(as_map(after) =~= younger_than(as_map(before), now, ttl as nat)) by {
                assert forall|source: PeerId| #[trigger]
                    as_map(after).contains_key(source) implies younger_than(
                    as_map(before),
                    now,
                    ttl as nat,
                ).contains_key(source) && as_map(before)[source] == as_map(after)[source] by {
                    let k = position(after, source);
                    let j = choose|j: int| 0 <= j < before.len() && before[j] == after[k];
                    lemma_entry_in_map(after, k);
                    lemma_entry_in_map(before, j);
                }
                assert forall|source: PeerId| #[trigger]
                    younger_than(as_map(before), now, ttl as nat).contains_key(source) implies as_map(
                    after,
                ).contains_key(source) by {
                    let j = position(before, source);
                    lemma_entry_in_map(before, j);
                    assert(after.contains(before[j]));
                    let k = choose|k: int| 0 <= k < after.len() && after[k] == before[j];
                    assert(after[k].0 == source);
                }
            }
        }
        self.entries = kept;
    }

    /// Number of peers with an entry.
    pub fn len(&self) -> (n: usize)
        ensures
            n == self@.dom().len(),
            self@.dom().finite(),
    {
        proof {
            use_type_invariant(self);
            lemma_map_len(self.entries@);
        }
        self.entries.len()
    }

    /// Whether no peer has an entry.
    pub fn is_empty(&self) -> (empty: bool)
        ensures
            empty == (self@ == Map::<PeerId, Timestamp>::empty()),
    {
        if self.entries.len() == 0 {
            assert(self@ =~= Map::<PeerId, Timestamp>::empty());
            true
        } else {
            assert(self@.contains_key(self.entries[0].0));
            false
        }
    }
}

} // verus!
