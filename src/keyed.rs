//! A finite map kept as a vector of entries with pairwise distinct keys, in
//! ascending key order.
//!
//! Keys are compared by their views, so the map is seen as a `Map` from key
//! views to value views.

use vstd::prelude::*;

verus! {

/// Keys that can be compared by value.
pub trait KeyEq: View + Sized {
    fn key_eq(&self, other: &Self) -> (r: bool)
        ensures
            r == (self@ == other@),
    ;
}

/// Keys with a total order on their views, comparable at run time.
pub trait KeyOrd: KeyEq {
    /// `a` comes before `b` or equals it.
    spec fn key_order(a: Self::V, b: Self::V) -> bool;

    fn key_le(&self, other: &Self) -> (r: bool)
        ensures
            r == Self::key_order(self@, other@),
    ;

    /// The order is total and transitive.
    proof fn lemma_le_order(a: Self::V, b: Self::V, c: Self::V)
        ensures
            Self::key_order(a, b) || Self::key_order(b, a),
            Self::key_order(a, b) && Self::key_order(b, c) ==> Self::key_order(a, c),
    ;
}

/// Values that can be copied with an equal view.
pub trait Duplicate: View + Sized {
    fn duplicate(&self) -> (r: Self)
        ensures
            r@ == self@,
    ;
}

/// A map with unique keys, its entries kept in ascending key order.
pub struct KeyedMap<K: KeyOrd, V: View> {
    entries: Vec<(K, V)>,
    model: Ghost<Map<K::V, V::V>>,
}

impl<K: KeyOrd, V: View> View for KeyedMap<K, V> {
    type V = Map<K::V, V::V>;

    closed spec fn view(&self) -> Map<K::V, V::V> {
        self.model@
    }
}

impl<K: KeyOrd, V: View> KeyedMap<K, V> {
    /// Entries agree with the model and have pairwise distinct keys, in ascending order.
    pub closed spec fn wf(&self) -> bool {
        &&& forall|i: int, j: int|
            0 <= i < j < self.entries@.len() ==> K::key_order(
                (#[trigger] self.entries@[i]).0@,
                (#[trigger] self.entries@[j]).0@,
            )
        &&& forall|i: int, j: int|
            0 <= i < j < self.entries@.len() ==> (#[trigger] self.entries@[i]).0@
                != (#[trigger] self.entries@[j]).0@
        &&& forall|i: int|
            0 <= i < self.entries@.len() ==> self.model@.contains_key((#[trigger] self.entries@[i]).0@)
                && self.model@[self.entries@[i].0@] == self.entries@[i].1@
        &&& forall|k: K::V|
            #[trigger] self.model@.contains_key(k) ==> exists|i: int|
                0 <= i < self.entries@.len() && (#[trigger] self.entries@[i]).0@ == k
    }

    /// Number of entries.
    pub closed spec fn spec_len(&self) -> nat {
        self.entries@.len()
    }

    /// View of the key of the `i`-th entry.
    pub closed spec fn spec_key(&self, i: int) -> K::V {
        self.entries@[i].0@
    }

    /// View of the value of the `i`-th entry.
    pub closed spec fn spec_value(&self, i: int) -> V::V {
        self.entries@[i].1@
    }

    /// The entries enumerate the map: each entry is in it, each key of it has an
    /// entry, and no two entries share a key.
    pub proof fn lemma_entries(&self)
        requires
            self.wf(),
        ensures
            forall|i: int|
                0 <= i < self.spec_len() ==> self@.contains_key(#[trigger] self.spec_key(i))
                    && self@[self.spec_key(i)] == self.spec_value(i),
            forall|k: K::V|
                #[trigger] self@.contains_key(k) ==> exists|i: int|
                    0 <= i < self.spec_len() && #[trigger] self.spec_key(i) == k,
            forall|i: int, j: int|
                0 <= i < self.spec_len() && 0 <= j < self.spec_len() && i != j ==> #[trigger] self.spec_key(i)
                    != #[trigger] self.spec_key(j),
            forall|i: int, j: int|
                0 <= i < j < self.spec_len() ==> K::key_order(#[trigger] self.spec_key(i), #[trigger] self.spec_key(j)),
    {
        assert forall|i: int, j: int|
            0 <= i < j < self.spec_len() implies K::key_order(#[trigger] self.spec_key(i), #[trigger] self.spec_key(j)) by {
            assert(K::key_order(self.entries@[i].0@, self.entries@[j].0@));
        }
        assert forall|k: K::V| #[trigger] self@.contains_key(k) implies exists|i: int|
            0 <= i < self.spec_len() && #[trigger] self.spec_key(i) == k by {
            let i = choose|i: int| 0 <= i < self.entries@.len() && (#[trigger] self.entries@[i]).0@ == k;
            assert(self.spec_key(i) == k);
        }
        assert forall|i: int, j: int|
            0 <= i < self.spec_len() && 0 <= j < self.spec_len() && i != j implies #[trigger] self.spec_key(i)
                != #[trigger] self.spec_key(j) by {
            if i < j {
                assert(self.entries@[i].0@ != self.entries@[j].0@);
            } else {
                assert(self.entries@[j].0@ != self.entries@[i].0@);
            }
        }
    }

    /// A copy of the map, entry by entry.
    pub fn duplicate(&self) -> (r: Self) where K: Duplicate, V: Duplicate
        requires
            self.wf(),
        ensures
            r.wf(),
            r@ == self@,
    {
        let mut entries: Vec<(K, V)> = Vec::new();
        let mut i: usize = 0;
        while i < self.entries.len()
            invariant
                self.wf(),
                i <= self.entries@.len(),
                entries@.len() == i,
                forall|j: int|
                    0 <= j < i ==> (#[trigger] entries@[j]).0@ == self.entries@[j].0@ && entries@[j].1@
                        == self.entries@[j].1@,
            decreases self.entries@.len() - i,
        {
            let k = self.entries[i].0.duplicate();
            let v = self.entries[i].1.duplicate();
            entries.push((k, v));
            i = i + 1;
        }
        let r = KeyedMap { entries, model: Ghost(self.model@) };
        assert forall|a: int, b: int|
            0 <= a < b < r.entries@.len() implies (#[trigger] r.entries@[a]).0@ != (#[trigger] r.entries@[b]).0@ by {
            assert(self.entries@[a].0@ != self.entries@[b].0@);
        }
        assert forall|a: int| 0 <= a < r.entries@.len() implies r.model@.contains_key(
            (#[trigger] r.entries@[a]).0@,
        ) && r.model@[r.entries@[a].0@] == r.entries@[a].1@ by {
            assert(self.model@.contains_key(self.entries@[a].0@));
        }
        assert forall|k: K::V| #[trigger] r.model@.contains_key(k) implies exists|j: int|
            0 <= j < r.entries@.len() && (#[trigger] r.entries@[j]).0@ == k by {
            let j = choose|j: int| 0 <= j < self.entries@.len() && (#[trigger] self.entries@[j]).0@ == k;
            assert(r.entries@[j].0@ == k);
        }
        r
    }

    /// An empty map.
    pub fn new() -> (r: Self)
        ensures
            r.wf(),
            r@ == Map::<K::V, V::V>::empty(),
    {
        KeyedMap { entries: Vec::new(), model: Ghost(Map::empty()) }
    }

    /// Number of entries.
    pub fn len(&self) -> (r: usize)
        ensures
            r == self.spec_len(),
    {
        self.entries.len()
    }

    /// The key of the `i`-th entry.
    pub fn key_at(&self, i: usize) -> (r: &K)
        requires
            i < self.spec_len(),
        ensures
            r@ == self.spec_key(i as int),
    {
        &self.entries[i].0
    }

    /// The value of the `i`-th entry.
    pub fn value_at(&self, i: usize) -> (r: &V)
        requires
            i < self.spec_len(),
        ensures
            r@ == self.spec_value(i as int),
    {
        &self.entries[i].1
    }

    fn find(&self, k: &K) -> (r: Option<usize>)
        requires
            self.wf(),
        ensures
            r matches Some(i) ==> i < self.entries@.len() && self.entries@[i as int].0@ == k@
                && self@.contains_key(k@),
            r.is_none() ==> !self@.contains_key(k@) && forall|j: int|
                0 <= j < self.entries@.len() ==> (#[trigger] self.entries@[j]).0@ != k@,
    {
        let mut i: usize = 0;
        while i < self.entries.len()
            invariant
                self.wf(),
                i <= self.entries@.len(),
                forall|j: int| 0 <= j < i ==> (#[trigger] self.entries@[j]).0@ != k@,
            decreases self.entries@.len() - i,
        {
            if self.entries[i].0.key_eq(k) {
                assert(self.model@.contains_key(self.entries@[i as int].0@));
                return Some(i);
            }
            i = i + 1;
        }
        proof {
            if self@.contains_key(k@) {
                let j = choose|j: int| 0 <= j < self.entries@.len() && (#[trigger] self.entries@[j]).0@ == k@;
                assert(self.entries@[j].0@ != k@);
            }
        }
        None
    }

    /// Whether the map has an entry for `k`.
    pub fn contains(&self, k: &K) -> (r: bool)
        requires
            self.wf(),
        ensures
            r == self@.contains_key(k@),
    {
        self.find(k).is_some()
    }

    /// The value stored under `k`, if any.
    pub fn get(&self, k: &K) -> (r: Option<&V>)
        requires
            self.wf(),
        ensures
            r.is_some() == self@.contains_key(k@),
            r matches Some(v) ==> v@ == self@[k@],
    {
        match self.find(k) {
            Some(i) => Some(&self.entries[i].1),
            None => None,
        }
    }

    /// Stores `v` under `k`, replacing what was there.
    pub fn insert(&mut self, k: K, v: V)
        requires
            old(self).wf(),
        ensures
            final(self).wf(),
            final(self)@ == old(self)@.insert(k@, v@),
    {
        let ghost kv = k@;
        let ghost vv = v@;
        match self.find(&k) {
            Some(i) => {
                self.entries.set(i, (k, v));
                self.model = Ghost(self.model@.insert(kv, vv));
                assert forall|k2: K::V| #[trigger] self.model@.contains_key(k2) implies exists|j: int|
                    0 <= j < self.entries@.len() && (#[trigger] self.entries@[j]).0@ == k2 by {
                    if k2 != kv {
                        let j = choose|j: int|
                            0 <= j < old(self).entries@.len() && (#[trigger] old(self).entries@[j]).0@ == k2;
                        assert(self.entries@[j].0@ == k2);
                    } else {
                        assert(self.entries@[i as int].0@ == k2);
                    }
                }
            },
            None => {
                let mut p: usize = 0;
                while p < self.entries.len() && self.entries[p].0.key_le(&k)
                    invariant
                        p <= self.entries@.len(),
                        kv == k@,
                        forall|a: int| 0 <= a < p ==> K::key_order((#[trigger] self.entries@[a]).0@, kv),
                    decreases self.entries@.len() - p,
                {
                    p = p + 1;
                }
                let ghost before = self.entries@;
                self.entries.insert(p, (k, v));
                self.model = Ghost(self.model@.insert(kv, vv));
                proof {
                    assert(self.entries@ == before.insert(p as int, self.entries@[p as int]));
                    assert(self.entries@[p as int].0@ == kv && self.entries@[p as int].1@ == vv);
                    assert forall|a: int| 0 <= a < self.entries@.len() && a != p implies #[trigger] self.entries@[a]
                        == before[if a < p { a } else { a - 1 }] by {}
                    assert forall|a: int, b: int|
                        0 <= a < b < self.entries@.len() implies K::key_order(
                        (#[trigger] self.entries@[a]).0@,
                        (#[trigger] self.entries@[b]).0@,
                    ) by {
                        let a0 = if a < p { a } else { a - 1 };
                        let b0 = if b < p { b } else { b - 1 };
                        if a != p && b != p {
                            assert(self.entries@[a] == before[a0]);
                            assert(self.entries@[b] == before[b0]);
                            if a0 < b0 {
                                assert(K::key_order(before[a0].0@, before[b0].0@));
                            } else {
                                K::lemma_le_order(before[a0].0@, before[a0].0@, before[a0].0@);
                            }
                        } else if a == p {
                            assert(self.entries@[b] == before[b0]);
                            K::lemma_le_order(kv, before[p as int].0@, before[b0].0@);
                            if b0 > p {
                                assert(K::key_order(before[p as int].0@, before[b0].0@));
                            }
                        } else {
                            assert(self.entries@[a] == before[a0]);
                        }
                    }
                    assert forall|a: int, b: int|
                        0 <= a < b < self.entries@.len() implies (#[trigger] self.entries@[a]).0@
                            != (#[trigger] self.entries@[b]).0@ by {
                        let a0 = if a < p { a } else { a - 1 };
                        let b0 = if b < p { b } else { b - 1 };
                        if a != p && b != p {
                            assert(self.entries@[a] == before[a0]);
                            assert(self.entries@[b] == before[b0]);
                            assert(before[a0].0@ != before[b0].0@);
                        } else if a == p {
                            assert(self.entries@[b] == before[b0]);
                            assert(before[b0].0@ != kv);
                        } else {
                            assert(self.entries@[a] == before[a0]);
                            assert(before[a0].0@ != kv);
                        }
                    }
                    assert forall|a: int| 0 <= a < self.entries@.len() implies self.model@.contains_key(
                        (#[trigger] self.entries@[a]).0@,
                    ) && self.model@[self.entries@[a].0@] == self.entries@[a].1@ by {
                        if a != p {
                            let a0 = if a < p { a } else { a - 1 };
                            assert(self.entries@[a] == before[a0]);
                            assert(before[a0].0@ != kv);
                            assert(old(self).model@.contains_key(before[a0].0@));
                        }
                    }
                    assert forall|k2: K::V| #[trigger] self.model@.contains_key(k2) implies exists|j: int|
                        0 <= j < self.entries@.len() && (#[trigger] self.entries@[j]).0@ == k2 by {
                        if k2 != kv {
                            let j = choose|j: int|
                                0 <= j < before.len() && (#[trigger] before[j]).0@ == k2;
                            let j1 = if j < p { j } else { j + 1 };
                            assert(self.entries@[j1] == before[j]);
                        } else {
                            assert(self.entries@[p as int].0@ == k2);
                        }
                    }
                }
            },
        }
    }

    /// Takes out the value stored under `k`, if any.
    pub fn remove(&mut self, k: &K) -> (r: Option<V>)
        requires
            old(self).wf(),
        ensures
            final(self).wf(),
            final(self)@ == old(self)@.remove(k@),
            r.is_some() == old(self)@.contains_key(k@),
            r matches Some(v) ==> v@ == old(self)@[k@],
    {
        match self.find(k) {
            Some(i) => {
                let ghost before = self.entries@;
                let (_key, value) = self.entries.remove(i);
                self.model = Ghost(self.model@.remove(k@));
                assert forall|a: int| 0 <= a < self.entries@.len() implies #[trigger] self.entries@[a]
                    == before[if a < i { a } else { a + 1 }] by {}
                assert forall|a: int, b: int|
                    0 <= a < b < self.entries@.len() implies K::key_order(
                    (#[trigger] self.entries@[a]).0@,
                    (#[trigger] self.entries@[b]).0@,
                ) by {
                    let a0 = if a < i { a } else { a + 1 };
                    let b0 = if b < i { b } else { b + 1 };
                    assert(self.entries@[a] == before[a0]);
                    assert(self.entries@[b] == before[b0]);
                    assert(K::key_order(before[a0].0@, before[b0].0@));
                }
                assert forall|a: int, b: int|
                    0 <= a < b < self.entries@.len() implies (#[trigger] self.entries@[a]).0@
                        != (#[trigger] self.entries@[b]).0@ by {
                    let a0 = if a < i { a } else { a + 1 };
                    let b0 = if b < i { b } else { b + 1 };
                    assert(self.entries@[a] == before[a0]);
                    assert(self.entries@[b] == before[b0]);
                    assert(before[a0].0@ != before[b0].0@);
                }
                assert forall|a: int| 0 <= a < self.entries@.len() implies self.model@.contains_key(
                    (#[trigger] self.entries@[a]).0@,
                ) && self.model@[self.entries@[a].0@] == self.entries@[a].1@ by {
                    let a0 = if a < i { a } else { a + 1 };
                    assert(self.entries@[a] == before[a0]);
                    assert(a0 != i as int);
                    assert(before[a0].0@ != before[i as int].0@);
                }
                assert forall|k2: K::V| #[trigger] self.model@.contains_key(k2) implies exists|j: int|
                    0 <= j < self.entries@.len() && (#[trigger] self.entries@[j]).0@ == k2 by {
                    let j = choose|j: int| 0 <= j < before.len() && (#[trigger] before[j]).0@ == k2;
                    assert(j != i as int);
                    let j1 = if j < i { j } else { j - 1 };
                    assert(self.entries@[j1] == before[j]);
                }
                Some(value)
            },
            None => {
                assert(self.model@.remove(k@) =~= self.model@);
                None
            },
        }
    }
}

} // verus!
