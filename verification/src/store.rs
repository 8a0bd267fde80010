use vstd::prelude::*;

verus! {

/// One record of a table, with the identity it is stored under.
struct Slot<V> {
    key: String,
    value: V,
}

/// A key-value table keyed by identity. Each identity has at most one
/// record; saving under an identity that has one replaces it.
pub struct Table<V> {
    slots: Vec<Slot<V>>,
}

impl<V> Table<V> {
    #[verifier::type_invariant]
    spec fn distinct_keys(self) -> bool {
        forall|i: int, j: int| 0 <= i < j < self.slots@.len() ==> self.slots@[i].key@ != self.slots@[j].key@
    }

    spec fn holds(self, key: Seq<char>, i: int) -> bool {
        0 <= i < self.slots@.len() && self.slots@[i].key@ == key
    }

    spec fn position(self, key: Seq<char>) -> int {
        choose|i: int| self.holds(key, i)
    }

    spec fn keys_below(self, n: int) -> Set<Seq<char>> {
        Set::new(|key: Seq<char>| exists|i: int| i < n && self.holds(key, i))
    }

    proof fn lemma_keys_below(self, n: int)
        requires
            self.distinct_keys(),
            0 <= n <= self.slots@.len(),
        ensures
            self.keys_below(n).finite(),
            self.keys_below(n).len() == n,
        decreases n,
    {
        if n == 0 {
            assert(self.keys_below(0) =~= Set::<Seq<char>>::empty());
        } else {
            self.lemma_keys_below(n - 1);
            let last = self.slots@[n - 1].key@;
            assert(self.holds(last, n - 1));
            assert forall|key: Seq<char>| #[trigger]
                self.keys_below(n).contains(key) == self.keys_below(n - 1).insert(last).contains(key) by {
                if self.keys_below(n).contains(key) {
                    let i = choose|i: int| i < n && self.holds(key, i);
                    if i < n - 1 {
                        assert(self.keys_below(n - 1).contains(key));
                    }
                }
            }
            assert(self.keys_below(n) =~= self.keys_below(n - 1).insert(last));
            if self.keys_below(n - 1).contains(last) {
                let i = choose|i: int| i < n - 1 && self.holds(last, i);
                assert(false);
            }
        }
    }
}

impl<V: View> View for Table<V> {
    type V = Map<Seq<char>, V::V>;

    /// The records of the table, each under its identity.
    closed spec fn view(&self) -> Map<Seq<char>, V::V> {
        Map::new(
            |key: Seq<char>| exists|i: int| self.holds(key, i),
            |key: Seq<char>| self.slots@[self.position(key)].value@,
        )
    }
}

impl<V: View> Table<V> {
    /// A table without records.
    pub fn new() -> (r: Table<V>)
        ensures
            r@ == Map::<Seq<char>, V::V>::empty(),
    {
        let r = Table { slots: Vec::new() };
        assert(r@ =~= Map::<Seq<char>, V::V>::empty());
        r
    }

    /// How many records the table holds.
    pub fn len(&self) -> (r: usize)
        ensures
            self@.dom().finite(),
            r == self@.len(),
    {
        proof {
            use_type_invariant(self);
            let n = self.slots@.len() as int;
            self.lemma_keys_below(n);
            assert(self@.dom() =~= self.keys_below(n));
        }
        self.slots.len()
    }

    fn find(&self, key: &String) -> (r: Option<usize>)
        ensures
            r is Some ==> self.holds(key@, r->Some_0 as int),
            r is None ==> forall|i: int| !self.holds(key@, i),
    {
        let mut i: usize = 0;
        while i < self.slots.len()
            invariant
                i <= self.slots.len(),
                forall|j: int| 0 <= j < i ==> self.slots@[j].key@ != key@,
            decreases self.slots.len() - i,
        {
            if self.slots[i].key == *key {
                return Some(i);
            }
            i += 1;
        }
        None
    }

    /// The record stored under `key`, if there is one.
    pub fn get(&self, key: &String) -> (r: Option<&V>)
        ensures
            r is Some <==> self@.contains_key(key@),
            r is Some ==> r->Some_0@ == self@[key@],
    {
        proof {
            use_type_invariant(self);
        }
        match self.find(key) {
            Some(i) => {
                assert(self.holds(key@, i as int));
                assert(self.position(key@) == i);
                Some(&self.slots[i].value)
            },
            None => None,
        }
    }

    /// Stores `value` under `key`, in place of the record that was there.
    pub fn insert(&mut self, key: String, value: V)
        ensures
            final(self)@ == old(self)@.insert(key@, value@),
    {
        proof {
            use_type_invariant(&*self);
        }
        let found = self.find(&key);
        let ghost n = old(self).slots@.len() as int;
        let ghost at = if found is Some { found->Some_0 as int } else { n };
        let mut slots: Vec<Slot<V>> = Vec::new();
        core::mem::swap(&mut slots, &mut self.slots);
        match found {
            Some(i) => {
                slots[i].value = value;
            },
            None => {
                assert forall|j: int| 0 <= j < n implies slots@[j].key@ != key@ by {
                    assert(!old(self).holds(key@, j));
                }
                slots.push(Slot { key, value });
            },
        }
        assert(slots@.len() >= n && slots@[at].key@ == key@ && slots@[at].value@ == value@);
        assert(forall|j: int| 0 <= j < n ==> slots@[j].key@ == old(self).slots@[j].key@);
        assert(forall|j: int| 0 <= j < n && j != at ==> slots@[j].value == old(self).slots@[j].value);
        self.slots = slots;
        assert forall|k: Seq<char>| #[trigger]
            self@.contains_key(k) == old(self)@.insert(key@, value@).contains_key(k) by {
            if old(self)@.contains_key(k) {
                let j = choose|j: int| old(self).holds(k, j);
                assert(self.holds(k, j));
            }
            if k == key@ {
                assert(self.holds(k, at));
            }
            if self@.contains_key(k) && k != key@ {
                let j = choose|j: int| self.holds(k, j);
                assert(old(self).holds(k, j));
            }
        }
        assert forall|k: Seq<char>| #[trigger] self@.contains_key(k) implies self@[k] == old(self)@.insert(
            key@,
            value@,
        )[k] by {
            let j = self.position(k);
            assert(self.holds(k, j));
            if k == key@ {
                assert(self.holds(k, at));
            } else {
                assert(old(self).holds(k, j));
                assert(old(self).position(k) == j);
            }
        }
        assert(self@ =~= old(self)@.insert(key@, value@));
    }
}

} // verus!
