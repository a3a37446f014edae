//! A set of record addresses.

use vstd::prelude::*;

use crate::replication::types::{same_name, XorName};

verus! {

/// A set of [`XorName`]s. Its view is the set of the names that it holds.
pub struct KeySet {
    keys: Vec<XorName>,
}

impl View for KeySet {
    type V = Set<XorName>;

    closed spec fn view(&self) -> Set<XorName> {
        self.keys@.to_set()
    }
}

impl KeySet {
    /// No name is held twice, so the number of entries is the size of the set.
    #[verifier::type_invariant]
    spec fn distinct(&self) -> bool {
        self.keys@.no_duplicates()
    }

    /// The empty set.
    pub fn new() -> (set: KeySet)
        ensures
            set@ == Set::<XorName>::empty(),
    {
        let set = KeySet { keys: Vec::new() };
        assert(set@ =~= Set::<XorName>::empty());
        set
    }

    /// Whether `key` is in the set.
    pub fn contains(&self, key: &XorName) -> (found: bool)
        ensures
            found == self@.contains(*key),
    {
        let mut i: usize = 0;
        while i < self.keys.len()
            invariant
                i <= self.keys.len(),
                forall|j: int| 0 <= j < i ==> self.keys[j] != *key,
            decreases self.keys.len() - i,
        {
            if same_name(&self.keys[i], key) {
                assert(self.keys@.contains(*key));
                return true;
            }
            i += 1;
        }
        false
    }

    /// Adds `key`; returns whether it was not in the set before.
    pub fn insert(&mut self, key: XorName) -> (added: bool)
        ensures
            added == !old(self)@.contains(key),
            final(self)@ == old(self)@.insert(key),
    {
        if self.contains(&key) {
            assert(self@.insert(key) =~= self@);
            return false;
        }
        proof {
            use_type_invariant(&*self);
        }
        let ghost before = self.keys@;
        let mut keys: Vec<XorName> = Vec::new();
        std::mem::swap(&mut keys, &mut self.keys);
        keys.push(key);
        proof {
            assert(before.to_set().insert(key) =~= keys@.to_set()) by {
                assert forall|k: XorName| before.contains(k) || k == key implies keys@.contains(
                    k,
                ) by {
                    if k == key {
                        assert(keys@[before.len() as int] == key);
                    } else {
                        let i = choose|i: int| 0 <= i < before.len() && before[i] == k;
                        assert(keys@[i] == k);
                    }
                }
            }
        }
        self.keys = keys;
        true
    }

    /// Adds every name of `other`.
    pub fn extend(&mut self, other: &KeySet)
        ensures
            final(self)@ == old(self)@.union(other@),
    {
        let ghost before = self@;
        let mut i: usize = 0;
        assert(self@ =~= before.union(other.keys@.take(0).to_set()));
        while i < other.keys.len()
            invariant
                i <= other.keys.len(),
                self@ == before.union(other.keys@.take(i as int).to_set()),
            decreases other.keys.len() - i,
        {
            self.insert(other.keys[i]);
            proof {
                let shorter = other.keys@.take(i as int);
                let longer = other.keys@.take(i + 1);
                assert(longer =~= shorter.push(other.keys[i as int]));
                assert forall|k: XorName| longer.to_set().contains(k) == (shorter.to_set().contains(
                    k,
                ) || k == other.keys[i as int]) by {
                    assert(longer[i as int] == other.keys[i as int]);
                    if shorter.contains(k) {
                        let j = choose|j: int| 0 <= j < shorter.len() && shorter[j] == k;
                        assert(longer[j] == k);
                    }
                }
                assert(self@ =~= before.union(longer.to_set()));
            }
            i += 1;
        }
        assert(other.keys@.take(i as int) =~= other.keys@);
    }

    /// Number of names in the set.
    pub fn len(&self) -> (n: usize)
        ensures
            n == self@.len(),
            self@.finite(),
    {
        proof {
            use_type_invariant(self);
            self.keys@.unique_seq_to_set();
            vstd::seq_lib::seq_to_set_is_finite(self.keys@);
        }
        self.keys.len()
    }

    /// Whether no name is in both sets.
    pub fn is_disjoint(&self, other: &KeySet) -> (disjoint: bool)
        ensures
            disjoint == self@.disjoint(other@),
    {
        let mut i: usize = 0;
        while i < self.keys.len()
            invariant
                i <= self.keys.len(),
                forall|j: int| 0 <= j < i ==> !other@.contains(#[trigger] self.keys[j]),
            decreases self.keys.len() - i,
        {
            if other.contains(&self.keys[i]) {
                assert(self@.contains(self.keys[i as int]));
                return false;
            }
            i += 1;
        }
        true
    }
}

} // verus!
