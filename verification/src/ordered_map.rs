//! A map that remembers the order in which its keys arrived.

use vstd::prelude::*;

verus! {

/// A key that can be compared in executable code, by its view.
pub trait MapKey: View + Sized {
    fn same_key(&self, other: &Self) -> (same: bool)
        ensures
            same == (self@ == other@),
    ;
}

impl MapKey for String {
    fn same_key(&self, other: &String) -> (same: bool) {
        *self == *other
    }
}

/// Keys with their values, in the order in which the keys were first inserted.
/// No key occurs twice.
#[derive(Debug, PartialEq, Eq)]
pub struct OrderedMap<K: MapKey, V> {
    pub keys: Vec<K>,
    pub values: Vec<V>,
}

impl<K: MapKey, V> OrderedMap<K, V> {
    /// The keys by their views, in insertion order.
    pub open spec fn key_order(&self) -> Seq<K::V> {
        Seq::new(self.keys@.len(), |i: int| self.keys@[i]@)
    }

    /// Every key has its value, and no key occurs twice.
    pub open spec fn wf(&self) -> bool {
        &&& self.keys@.len() == self.values@.len()
        &&& self.key_order().no_duplicates()
    }

    /// The map from each key's view to its value.
    pub open spec fn model(&self) -> Map<K::V, V> {
        Map::new(
            |k: K::V| self.key_order().contains(k),
            |k: K::V| self.values@[self.key_order().index_of(k)],
        )
    }

    /// In a well-formed map the value at position `i` belongs to the key at `i`.
    pub proof fn lemma_value_at(&self, i: int)
        requires
            self.wf(),
            0 <= i < self.keys@.len(),
        ensures
            self.model().contains_key(self.keys@[i]@),
            self.model()[self.keys@[i]@] == self.values@[i],
            self.key_order().index_of(self.keys@[i]@) == i,
    {
        let order = self.key_order();
        assert(order[i] == self.keys@[i]@);
        assert(order.contains(self.keys@[i]@));
        let found = order.index_of(self.keys@[i]@);
        assert(order[found] == order[i]);
    }

    pub fn new() -> (map: OrderedMap<K, V>)
        ensures
            map.wf(),
            map.model() == Map::<K::V, V>::empty(),
            map.key_order() == Seq::<K::V>::empty(),
    {
        let map = OrderedMap { keys: Vec::new(), values: Vec::new() };
        assert(map.key_order() =~= Seq::<K::V>::empty());
        assert(map.model() =~= Map::<K::V, V>::empty());
        map
    }

    /// Whether every key has its value and no key occurs twice.
    pub fn is_wf(&self) -> (ok: bool)
        ensures
            ok == self.wf(),
    {
        let n = self.keys.len();
        if n != self.values.len() {
            return false;
        }
        let mut j: usize = 0;
        while j < n
            invariant
                j <= n,
                n == self.keys@.len(),
                forall|a: int, b: int| 0 <= a < b < j ==> self.keys@[a]@ != self.keys@[b]@,
            decreases n - j,
        {
            let mut i: usize = 0;
            while i < j
                invariant
                    i <= j < n,
                    n == self.keys@.len(),
                    forall|a: int| 0 <= a < i ==> self.keys@[a]@ != self.keys@[j as int]@,
                decreases j - i,
            {
                if self.keys[i].same_key(&self.keys[j]) {
                    assert(self.key_order()[i as int] == self.key_order()[j as int]);
                    return false;
                }
                i = i + 1;
            }
            j = j + 1;
        }
        assert forall|a: int, b: int|
            0 <= a < self.key_order().len() && 0 <= b < self.key_order().len() && a
                != b implies self.key_order()[a] != self.key_order()[b] by {
            if a < b {
                assert(self.keys@[a]@ != self.keys@[b]@);
            } else {
                assert(self.keys@[b]@ != self.keys@[a]@);
            }
        }
        true
    }

    pub fn len(&self) -> (n: usize)
        requires
            self.wf(),
        ensures
            n == self.key_order().len(),
    {
        self.keys.len()
    }

    /// Where `key` stands, if the map holds it.
    pub fn position(&self, key: &K) -> (at: Option<usize>)
        requires
            self.wf(),
        ensures
            match at {
                Some(i) => i < self.keys@.len() && self.keys@[i as int]@ == key@
                    && self.model().contains_key(key@),
                None => !self.model().contains_key(key@),
            },
    {
        let mut i: usize = 0;
        while i < self.keys.len()
            invariant
                i <= self.keys@.len(),
                forall|j: int| 0 <= j < i ==> self.keys@[j]@ != key@,
            decreases self.keys@.len() - i,
        {
            if self.keys[i].same_key(key) {
                assert(self.key_order()[i as int] == key@);
                return Some(i);
            }
            i = i + 1;
        }
        None
    }

    /// The value of `key`, if the map holds it.
    pub fn get(&self, key: &K) -> (value: Option<&V>)
        requires
            self.wf(),
        ensures
            match value {
                Some(v) => self.model().contains_key(key@) && *v == self.model()[key@],
                None => !self.model().contains_key(key@),
            },
    {
        match self.position(key) {
            Some(i) => {
                proof {
                    self.lemma_value_at(i as int);
                }
                Some(&self.values[i])
            },
            None => None,
        }
    }

    /// Sets the value of `key`. A key that the map already holds keeps its place.
    pub fn insert(&mut self, key: K, value: V)
        requires
            old(self).wf(),
        ensures
            final(self).wf(),
            final(self).model() == old(self).model().insert(key@, value),
            final(self).key_order() == if old(self).model().contains_key(key@) {
                old(self).key_order()
            } else {
                old(self).key_order().push(key@)
            },
    {
        let ghost before = *self;
        match self.position(&key) {
            Some(i) => {
                self.values.set(i, value);
                proof {
                    assert(self.key_order() =~= before.key_order());
                    assert forall|k: K::V| self.model().contains_key(k) implies #[trigger] self.model()[k]
                        == before.model().insert(key@, value)[k] by {
                        let at = self.key_order().index_of(k);
                        before.lemma_value_at(i as int);
                    }
                    assert(self.model() =~= before.model().insert(key@, value));
                }
            },
            None => {
                self.keys.push(key);
                self.values.push(value);
                proof {
                    let n = before.keys@.len() as int;
                    assert(self.key_order() =~= before.key_order().push(key@));
                    assert(!before.key_order().contains(key@));
                    assert(self.wf());
                    self.lemma_value_at(n);
                    assert forall|k: K::V| self.model().contains_key(k) implies #[trigger] self.model()[k]
                        == before.model().insert(key@, value)[k] by {
                        if k != key@ {
                            let at = self.key_order().index_of(k);
                            assert(self.key_order()[at] == k);
                            assert(at < n);
                            assert(before.key_order()[at] == k);
                            before.lemma_value_at(at);
                        }
                    }
                    assert forall|k: K::V| self.model().contains_key(k) <==> before.model().insert(
                        key@,
                        value,
                    ).contains_key(k) by {
                        if before.key_order().contains(k) {
                            let at = before.key_order().index_of(k);
                            assert(self.key_order()[at] == k);
                        }
                        if self.key_order().contains(k) && k != key@ {
                            let at = self.key_order().index_of(k);
                            assert(self.key_order()[at] == k);
                            assert(before.key_order()[at] == k);
                        }
                    }
                    assert(self.model() =~= before.model().insert(key@, value));
                }
            },
        }
    }
}

} // verus!
