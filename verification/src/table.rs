//! A small keyed table: the in-memory form of one family of durable records.
//!
//! A table holds at most one value per key. Its view is the finite map from
//! keys to values, so contracts about stored records read as map updates.

use vstd::prelude::*;

verus! {

/// A key that can be told apart from another at run time.
pub trait Key: Copy {
    /// Run-time equality, which agrees with equality in specifications.
    fn same(&self, other: &Self) -> (r: bool)
        ensures
            r == (*self == *other),
    ;
}

impl Key for u64 {
    fn same(&self, other: &Self) -> (r: bool) {
        *self == *other
    }
}

/// Keyed records, in the order in which their keys first appeared.
pub struct Table<K, V> {
    pub keys: Vec<K>,
    pub values: Vec<V>,
}

impl<K, V> Table<K, V> {
    /// True when `i` is the position of key `k`.
    pub open spec fn at(&self, i: int, k: K) -> bool {
        0 <= i < self.keys.len() && self.keys[i] == k
    }

    /// The position of key `k`, for a key that is present.
    pub open spec fn position(&self, k: K) -> int {
        choose|i: int| self.at(i, k)
    }

    /// Every key has a value, and no key occurs twice.
    pub open spec fn wf(&self) -> bool {
        &&& self.keys.len() == self.values.len()
        &&& forall|i: int, j: int|
            0 <= i < self.keys.len() && 0 <= j < self.keys.len() && self.keys[i] == self.keys[j]
                ==> i == j
    }
}

impl<K, V> View for Table<K, V> {
    type V = Map<K, V>;

    open spec fn view(&self) -> Map<K, V> {
        Map::new(|k: K| exists|i: int| self.at(i, k), |k: K| self.values[self.position(k)])
    }
}

impl<K, V> Table<K, V> {
    /// In a well-formed table the position of a present key is the only one.
    pub proof fn lemma_position(&self, i: int, k: K)
        requires
            self.wf(),
            self.at(i, k),
        ensures
            self.position(k) == i,
            self@.dom().contains(k),
            self@[k] == self.values[i],
    {
        assert(self.at(self.position(k), k));
    }

    /// A key outside the view sits at no position.
    pub proof fn lemma_absent(&self, k: K)
        requires
            !self@.dom().contains(k),
        ensures
            forall|i: int| !self.at(i, k),
    {
    }
}

impl<K, V> Table<K, V> {
    /// In a well-formed table each position holds a key of the view and its value.
    pub proof fn lemma_entries(&self)
        requires
            self.wf(),
        ensures
            forall|i: int|
                0 <= i < self.keys.len() ==> self@.dom().contains(#[trigger] self.keys[i])
                    && self@[self.keys[i]] == self.values[i],
            forall|k: K| #[trigger]
                self@.dom().contains(k) ==> self.at(self.position(k), k) && self@[k]
                    == self.values[self.position(k)],
    {
        assert forall|i: int| 0 <= i < self.keys.len() implies self@.dom().contains(
            #[trigger] self.keys[i],
        ) && self@[self.keys[i]] == self.values[i] by {
            assert(self.at(i, self.keys[i]));
            self.lemma_position(i, self.keys[i]);
        }
    }
}

impl<K: Key, V: Copy> Table<K, V> {
    /// Whether the table is well formed.
    pub fn is_wf(&self) -> (r: bool)
        ensures
            r == self.wf(),
    {
        if self.keys.len() != self.values.len() {
            return false;
        }
        let mut i: usize = 0;
        while i < self.keys.len()
            invariant
                0 <= i <= self.keys.len(),
                forall|a: int, b: int| 0 <= a < i && 0 <= b < i && self.keys[a] == self.keys[b] ==> a == b,
            decreases self.keys.len() - i,
        {
            let mut j: usize = 0;
            while j < i
                invariant
                    0 <= j <= i < self.keys.len(),
                    forall|b: int| 0 <= b < j ==> self.keys[b] != self.keys[i as int],
                decreases i - j,
            {
                if self.keys[j].same(&self.keys[i]) {
                    return false;
                }
                j += 1;
            }
            i += 1;
        }
        true
    }

    /// An empty table.
    pub fn new() -> (t: Self)
        ensures
            t.wf(),
            t@ == Map::<K, V>::empty(),
    {
        let t = Table { keys: Vec::new(), values: Vec::new() };
        assert(t@ =~= Map::<K, V>::empty());
        t
    }

    /// The position of `k`, if it is present.
    pub fn find(&self, k: &K) -> (r: Option<usize>)
        requires
            self.wf(),
        ensures
            match r {
                Some(i) => self.at(i as int, *k) && self@.dom().contains(*k) && self@[*k]
                    == self.values@[i as int],
                None => !self@.dom().contains(*k),
            },
    {
        let mut i: usize = 0;
        while i < self.keys.len()
            invariant
                self.wf(),
                0 <= i <= self.keys.len(),
                forall|j: int| 0 <= j < i ==> !self.at(j, *k),
            decreases self.keys.len() - i,
        {
            if self.keys[i].same(k) {
                proof {
                    self.lemma_position(i as int, *k);
                }
                return Some(i);
            }
            i += 1;
        }
        None
    }

    /// True when `k` has a value.
    pub fn contains(&self, k: &K) -> (r: bool)
        requires
            self.wf(),
        ensures
            r == self@.dom().contains(*k),
    {
        self.find(k).is_some()
    }

    /// The value stored under `k`, if any.
    pub fn get(&self, k: &K) -> (r: Option<V>)
        requires
            self.wf(),
        ensures
            r == (if self@.dom().contains(*k) {
                Some(self@[*k])
            } else {
                None
            }),
    {
        match self.find(k) {
            Some(i) => Some(self.values[i]),
            None => None,
        }
    }

    /// Stores `v` under `k`, replacing what was there.
    pub fn insert(&mut self, k: K, v: V)
        requires
            old(self).wf(),
        ensures
            final(self).wf(),
            final(self)@ == old(self)@.insert(k, v),
    {
        match self.find(&k) {
            Some(i) => {
                self.values.set(i, v);
                proof {
                    assert(self.wf());
                    assert forall|q: K| old(self)@.insert(k, v).dom().contains(q) implies (
                    #[trigger] self@.dom().contains(q)) && self@[q] == old(self)@.insert(k, v)[q] by {
                        if q == k {
                            self.lemma_position(i as int, k);
                        } else {
                            let j = old(self).position(q);
                            assert(old(self).at(j, q));
                            assert(self.at(j, q));
                            self.lemma_position(j, q);
                            old(self).lemma_position(j, q);
                        }
                    }
                    assert forall|q: K| self@.dom().contains(q) implies #[trigger] old(self)@.insert(
                        k,
                        v,
                    ).dom().contains(q) by {
                        let j = self.position(q);
                        assert(self.at(j, q));
                        assert(old(self).at(j, q));
                    }
                    assert(self@ =~= old(self)@.insert(k, v));
                }
            },
            None => {
                self.keys.push(k);
                self.values.push(v);
                proof {
                    let n = old(self).keys.len() as int;
                    old(self).lemma_absent(k);
                    assert forall|a: int, b: int|
                        0 <= a < self.keys.len() && 0 <= b < self.keys.len() && self.keys[a]
                            == self.keys[b] implies a == b by {
                        if a < n && b < n {
                            assert(old(self).keys[a] == old(self).keys[b]);
                        } else if a < n {
                            assert(old(self).at(a, k));
                        } else if b < n {
                            assert(old(self).at(b, k));
                        }
                    }
                    assert(self.wf());
                    assert forall|q: K| old(self)@.insert(k, v).dom().contains(q) implies (
                    #[trigger] self@.dom().contains(q)) && self@[q] == old(self)@.insert(k, v)[q] by {
                        if q == k {
                            assert(self.at(n, k));
                            self.lemma_position(n, k);
                        } else {
                            let j = old(self).position(q);
                            assert(old(self).at(j, q));
                            assert(self.at(j, q));
                            self.lemma_position(j, q);
                            old(self).lemma_position(j, q);
                        }
                    }
                    assert forall|q: K| self@.dom().contains(q) implies #[trigger] old(self)@.insert(
                        k,
                        v,
                    ).dom().contains(q) by {
                        let j = self.position(q);
                        assert(self.at(j, q));
                        if j < n {
                            assert(old(self).at(j, q));
                        }
                    }
                    assert(self@ =~= old(self)@.insert(k, v));
                }
            },
        }
    }
}

} // verus!
