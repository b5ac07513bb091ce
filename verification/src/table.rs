//! A keyed store with at most one value per key.
//!
//! The ledger keeps its invoice records and its index lists in tables. A
//! table is read and written one key at a time, the way a durable key-value
//! store is: `has`, `get` and `set`. Its meaning is the map from a key's text
//! to the value held under it.

use vstd::prelude::*;

verus! {

/// A key together with the value stored under it.
pub struct Slot<V> {
    pub key: String,
    pub value: V,
}

/// Values looked up by the text of their key.
pub struct Table<V> {
    slots: Vec<Slot<V>>,
}

impl<V> Table<V> {
    /// The text of the key in slot `i`.
    pub closed spec fn key_at(&self, i: int) -> Seq<char> {
        self.slots[i].key@
    }

    /// The slot that holds key `k`, when some slot does.
    pub closed spec fn slot_of(&self, k: Seq<char>) -> int {
        choose|i: int| 0 <= i < self.slots.len() && #[trigger] self.key_at(i) == k
    }

    /// No key occupies two slots.
    pub closed spec fn wf(&self) -> bool {
        forall|i: int, j: int|
            0 <= i < j < self.slots.len() ==> #[trigger] self.key_at(i) != #[trigger] self.key_at(j)
    }

    /// What the table holds: each stored key's text, mapped to its value.
    pub closed spec fn map(&self) -> Map<Seq<char>, V> {
        Map::new(
            |k: Seq<char>| exists|i: int| 0 <= i < self.slots.len() && #[trigger] self.key_at(i) == k,
            |k: Seq<char>| self.slots[self.slot_of(k)].value,
        )
    }

    proof fn lemma_slot(&self, i: int)
        requires
            self.wf(),
            0 <= i < self.slots.len(),
        ensures
            self.map().contains_key(self.key_at(i)),
            self.slot_of(self.key_at(i)) == i,
            self.map()[self.key_at(i)] == self.slots[i].value,
    {
        let k = self.key_at(i);
        let j = self.slot_of(k);
        assert(0 <= j < self.slots.len() && self.key_at(j) == k);
        if j < i {
            assert(self.key_at(j) != self.key_at(i));
        } else if i < j {
            assert(self.key_at(i) != self.key_at(j));
        }
    }

    /// An empty table.
    pub fn new() -> (t: Self)
        ensures
            t.wf(),
            t.map() == Map::<Seq<char>, V>::empty(),
    {
        let t = Table { slots: Vec::new() };
        assert(t.map() =~= Map::<Seq<char>, V>::empty());
        t
    }

    fn find(&self, key: &String) -> (r: Option<usize>)
        requires
            self.wf(),
        ensures
            match r {
                Some(i) => i < self.slots.len() && self.key_at(i as int) == key@,
                None => forall|i: int| 0 <= i < self.slots.len() ==> self.key_at(i) != key@,
            },
    {
        let mut i: usize = 0;
        while i < self.slots.len()
            invariant
                i <= self.slots.len(),
                forall|j: int| 0 <= j < i ==> self.key_at(j) != key@,
            decreases self.slots.len() - i,
        {
            if self.slots[i].key == *key {
                return Some(i);
            }
            i = i + 1;
        }
        None
    }

    /// Whether a value is stored under `key`.
    pub fn has(&self, key: &String) -> (r: bool)
        requires
            self.wf(),
        ensures
            r == self.map().contains_key(key@),
    {
        self.find(key).is_some()
    }

    /// The value stored under `key`, if there is one.
    pub fn get(&self, key: &String) -> (r: Option<&V>)
        requires
            self.wf(),
        ensures
            match r {
                Some(v) => self.map().contains_key(key@) && *v == self.map()[key@],
                None => !self.map().contains_key(key@),
            },
    {
        match self.find(key) {
            Some(i) => {
                proof {
                    self.lemma_slot(i as int);
                }
                Some(&self.slots[i].value)
            },
            None => None,
        }
    }

    /// Stores `value` under `key`, in place of whatever was there.
    pub fn set(&mut self, key: String, value: V)
        requires
            old(self).wf(),
        ensures
            final(self).wf(),
            final(self).map() == old(self).map().insert(key@, value),
    {
        let ghost before = *self;
        let ghost k = key@;
        match self.find(&key) {
            Some(i) => {
                self.slots.set(i, Slot { key, value });
                proof {
                    assert forall|j: int| 0 <= j < self.slots.len() implies #[trigger] self.key_at(
                        j,
                    ) == before.key_at(j) by {}
                    assert forall|a: int, b: int| 0 <= a < b < self.slots.len() implies #[trigger]
                        self.key_at(a) != #[trigger] self.key_at(b) by {
                        assert(before.key_at(a) != before.key_at(b));
                    }
                    assert forall|q: Seq<char>| #[trigger]
                        self.map().contains_key(q) == before.map().insert(k, value).contains_key(
                            q,
                        ) by {
                        if before.map().contains_key(q) {
                            let j = before.slot_of(q);
                            assert(self.key_at(j) == q);
                        }
                        if self.map().contains_key(q) {
                            let j = self.slot_of(q);
                            assert(before.key_at(j) == q);
                        }
                    }
                    assert forall|q: Seq<char>| #[trigger]
                        self.map().contains_key(q) implies self.map()[q] == before.map().insert(
                        k,
                        value,
                    )[q] by {
                        let j = self.slot_of(q);
                        self.lemma_slot(j);
                        before.lemma_slot(j);
                    }
                    assert(self.map() =~= before.map().insert(k, value));
                }
            },
            None => {
                self.slots.push(Slot { key, value });
                proof {
                    let n = before.slots.len() as int;
                    assert forall|j: int| 0 <= j < n implies #[trigger] self.key_at(j)
                        == before.key_at(j) by {}
                    assert(self.key_at(n) == k);
                    assert forall|a: int, b: int| 0 <= a < b < self.slots.len() implies #[trigger]
                        self.key_at(a) != #[trigger] self.key_at(b) by {
                        if b < n {
                            assert(before.key_at(a) != before.key_at(b));
                        } else {
                            assert(before.key_at(a) != k);
                        }
                    }
                    assert forall|q: Seq<char>| #[trigger]
                        self.map().contains_key(q) == before.map().insert(k, value).contains_key(
                            q,
                        ) by {
                        if before.map().contains_key(q) {
                            let j = before.slot_of(q);
                            assert(self.key_at(j) == q);
                        }
                        if self.map().contains_key(q) {
                            let j = self.slot_of(q);
                            if j < n {
                                assert(before.key_at(j) == q);
                            }
                        }
                    }
                    assert forall|q: Seq<char>| #[trigger]
                        self.map().contains_key(q) implies self.map()[q] == before.map().insert(
                        k,
                        value,
                    )[q] by {
                        let j = self.slot_of(q);
                        self.lemma_slot(j);
                        if j < n {
                            before.lemma_slot(j);
                        }
                    }
                    assert(self.map() =~= before.map().insert(k, value));
                }
            },
        }
    }
}

} // verus!
