//! The correlation store: a fixed-capacity table mapping the packed identity
//! of an in-flight operation to its start timestamp.
//!
//! One store exists per probe kind. The kernel execution environment allows
//! no dynamic allocation, so the store refuses new keys once its fixed
//! capacity is reached; the caller absorbs the failure silently.

use vstd::prelude::*;

verus! {

/// Keys appear at most once in the backing sequence.
pub open spec fn keys_unique(s: Seq<(u64, u64)>) -> bool {
    forall|i: int, j: int| 0 <= i < j < s.len() ==> (#[trigger] s[i]).0 != (#[trigger] s[j]).0
}

/// Fixed-capacity map from operation identity to start timestamp.
pub struct CorrelationStore {
    entries: Vec<(u64, u64)>,
    capacity: usize,
}

impl CorrelationStore {
    /// Well-formed: no duplicate keys, and never more entries than capacity.
    pub closed spec fn wf(self) -> bool {
        keys_unique(self.entries@) && self.entries@.len() <= self.capacity
    }

    /// The fixed capacity the store was created with.
    pub closed spec fn spec_capacity(self) -> usize {
        self.capacity
    }

    /// Whether some stored entry carries the key.
    spec fn has_key(self, key: u64) -> bool {
        exists|i: int| 0 <= i < self.entries@.len() && (#[trigger] self.entries@[i]).0 == key
    }

    /// The position of the entry carrying the key.
    spec fn index_of(self, key: u64) -> int {
        choose|i: int| 0 <= i < self.entries@.len() && (#[trigger] self.entries@[i]).0 == key
    }

    /// No further key fits: the store is at capacity.
    pub closed spec fn is_full(self) -> bool {
        self.entries@.len() == self.capacity
    }

    /// With unique keys, two positions carrying the same key coincide.
    proof fn lemma_index_unique(self, i: int, j: int)
        requires
            keys_unique(self.entries@),
            0 <= i < self.entries@.len(),
            0 <= j < self.entries@.len(),
            self.entries@[i].0 == self.entries@[j].0,
        ensures
            i == j,
    {
    }

    /// Creates an empty store of the given fixed capacity.
    pub fn new(capacity: usize) -> (r: CorrelationStore)
        ensures
            r.wf(),
            r@ == Map::<u64, u64>::empty(),
            r.spec_capacity() == capacity,
            !r.is_full() || capacity == 0,
    {
        let r = CorrelationStore { entries: Vec::new(), capacity };
        proof {
            assert(r@ =~= Map::<u64, u64>::empty());
        }
        r
    }

    /// The position of the entry carrying the key, or `None`.
    fn find_index(&self, key: u64) -> (r: Option<usize>)
        ensures
            match r {
                Some(i) => i < self.entries@.len() && self.entries@[i as int].0 == key,
                None => !self.has_key(key),
            },
    {
        let n = self.entries.len();
        let mut i: usize = 0;
        while i < n
            invariant
                i <= n,
                n == self.entries@.len(),
                forall|j: int| 0 <= j < i ==> (#[trigger] self.entries@[j]).0 != key,
            decreases n - i,
        {
            if self.entries[i].0 == key {
                return Some(i);
            }
            i = i + 1;
        }
        None
    }

    /// Records `key -> value`, updating the value of a key already present.
    /// When the store is full and the key is new, nothing changes and the
    /// insert reports failure.
    pub fn insert(&mut self, key: u64, value: u64) -> (ok: bool)
        requires
            old(self).wf(),
        ensures
            final(self).wf(),
            final(self).spec_capacity() == old(self).spec_capacity(),
            ok == (old(self)@.contains_key(key) || !old(self).is_full()),
            ok ==> final(self)@ == old(self)@.insert(key, value),
            !ok ==> final(self)@ == old(self)@,
    {
        let ghost pre = *self;
        match self.find_index(key) {
            Some(i) => {
                self.entries[i] = (key, value);
                proof {
                    assert(pre.has_key(key));
                    assert forall|k: u64| true implies {
                        &&& self.has_key(k) == pre@.insert(key, value).contains_key(k)
                        &&& (self.has_key(k) ==> self.value_of(k) == pre@.insert(
                            key,
                            value,
                        )[k])
                    } by {
                        if k == key {
                            assert(self.entries@[i as int].0 == key);
                            assert(self.has_key(k));
                            let j = self.index_of(k);
                            self.lemma_index_unique(j, i as int);
                        } else {
                            if pre.has_key(k) {
                                let j = pre.index_of(k);
                                assert(self.entries@[j].0 == k);
                                assert(self.has_key(k));
                            }
                            if self.has_key(k) {
                                let j = self.index_of(k);
                                assert(pre.entries@[j].0 == k);
                                assert(pre.has_key(k));
                                let j2 = pre.index_of(k);
                                pre.lemma_index_unique(j, j2);
                            }
                        }
                    }
                    assert(self@ =~= pre@.insert(key, value));
                }
                true
            },
            None => {
                if self.entries.len() < self.capacity {
                    self.entries.push((key, value));
                    proof {
                        let n = pre.entries@.len() as int;
                        assert forall|k: u64| true implies {
                            &&& self.has_key(k) == pre@.insert(key, value).contains_key(k)
                            &&& (self.has_key(k) ==> self.value_of(k) == pre@.insert(
                                key,
                                value,
                            )[k])
                        } by {
                            if k == key {
                                assert(self.entries@[n].0 == key);
                                assert(self.has_key(k));
                                let j = self.index_of(k);
                                self.lemma_index_unique(j, n);
                            } else {
                                if pre.has_key(k) {
                                    let j = pre.index_of(k);
                                    assert(self.entries@[j].0 == k);
                                    assert(self.has_key(k));
                                }
                                if self.has_key(k) {
                                    let j = self.index_of(k);
                                    assert(j != n);
                                    assert(pre.entries@[j].0 == k);
                                    let j2 = pre.index_of(k);
                                    pre.lemma_index_unique(j, j2);
                                }
                            }
                        }
                        assert(self@ =~= pre@.insert(key, value));
                    }
                    true
                } else {
                    proof {
                        assert(!pre@.contains_key(key));
                    }
                    false
                }
            },
        }
    }

    /// The start timestamp recorded under the key, if any.
    pub fn get(&self, key: u64) -> (r: Option<u64>)
        requires
            self.wf(),
        ensures
            r == if self@.contains_key(key) {
                Some(self@[key])
            } else {
                None::<u64>
            },
    {
        match self.find_index(key) {
            Some(i) => {
                proof {
                    let j = self.index_of(key);
                    self.lemma_index_unique(j, i as int);
                }
                Some(self.entries[i].1)
            },
            None => None,
        }
    }

    /// Deletes the entry under the key, if any.
    pub fn remove(&mut self, key: u64)
        requires
            old(self).wf(),
        ensures
            final(self).wf(),
            final(self).spec_capacity() == old(self).spec_capacity(),
            final(self)@ == old(self)@.remove(key),
    {
        let ghost pre = *self;
        match self.find_index(key) {
            Some(i) => {
                self.entries.remove(i);
                proof {
                    let n = pre.entries@.len() as int;
                    assert forall|k: u64| true implies {
                        &&& self.has_key(k) == pre@.remove(key).contains_key(k)
                        &&& (self.has_key(k) ==> self.value_of(k) == pre@.remove(key)[k])
                    } by {
                        if pre.has_key(k) && k != key {
                            let j = pre.index_of(k);
                            pre.lemma_index_unique(j, j);
                            if j < i as int {
                                assert(self.entries@[j].0 == k);
                            } else {
                                assert(pre.entries@[i as int].0 == key);
                                assert(j != i as int);
                                assert(self.entries@[j - 1].0 == k);
                            }
                            assert(self.has_key(k));
                        }
                        if self.has_key(k) {
                            let j = self.index_of(k);
                            let jp = if j < i as int {
                                j
                            } else {
                                j + 1
                            };
                            assert(pre.entries@[jp].0 == k);
                            assert(pre.has_key(k));
                            let j2 = pre.index_of(k);
                            pre.lemma_index_unique(jp, j2);
                            assert(k != key) by {
                                if k == key {
                                    pre.lemma_index_unique(jp, i as int);
                                }
                            }
                        }
                    }
                    assert(self@ =~= pre@.remove(key));
                }
            },
            None => {
                proof {
                    assert(self@ =~= pre@.remove(key));
                }
            },
        }
    }

    /// The value stored under a key that is present.
    spec fn value_of(self, key: u64) -> u64 {
        self.entries@[self.index_of(key)].1
    }
}

impl View for CorrelationStore {
    type V = Map<u64, u64>;

    /// The store abstracts to the map of its entries.
    closed spec fn view(&self) -> Map<u64, u64> {
        Map::new(|k: u64| self.has_key(k), |k: u64| self.value_of(k))
    }
}

} // verus!
