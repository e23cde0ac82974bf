use vstd::prelude::*;
use vstd::pervasive::VecAdditionalExecFns;

verus! {

/// A map from text keys to values, kept as a list of entries in which no key occurs twice.
pub struct StringMap<V> {
    entries: Vec<(String, V)>,
}

/// The key of each entry, in order.
pub open spec fn entry_keys<V>(entries: Seq<(String, V)>) -> Seq<Seq<char>> {
    entries.map_values(|e: (String, V)| e.0@)
}

impl<V> StringMap<V> {
    /// No key occurs twice among the entries.
    pub closed spec fn wf(&self) -> bool {
        entry_keys(self.entries@).no_duplicates()
    }

    /// The keys of the entries, in the order in which they are kept.
    pub closed spec fn keys(&self) -> Seq<Seq<char>> {
        entry_keys(self.entries@)
    }

    /// The values of the entries, in the same order as `keys`.
    pub closed spec fn values(&self) -> Seq<V> {
        self.entries@.map_values(|e: (String, V)| e.1)
    }

    /// Where `k` stands among the keys.
    closed spec fn position(&self, k: Seq<char>) -> int {
        choose|i: int| 0 <= i < self.keys().len() && self.keys()[i] == k
    }

    /// The number of entries.
    pub closed spec fn spec_len(&self) -> nat {
        self.entries@.len()
    }

    proof fn lemma_position(&self, i: int)
        requires
            self.wf(),
            0 <= i < self.entries@.len(),
        ensures
            self.position(self.keys()[i]) == i,
            self@.contains_key(self.keys()[i]),
            self@[self.keys()[i]] == self.values()[i],
    {
        let k = self.keys()[i];
        assert(0 <= i < self.keys().len() && self.keys()[i] == k);
        let j = self.position(k);
        assert(0 <= j < self.keys().len() && self.keys()[j] == k);
    }

    /// Facts that tie the map to its list of entries.
    pub proof fn lemma_entries(&self)
        requires
            self.wf(),
        ensures
            self.keys().len() == self.values().len(),
            self.keys().len() == self.spec_len(),
            self.keys().no_duplicates(),
            forall|i: int|
                0 <= i < self.keys().len() ==> #[trigger] self@.contains_key(self.keys()[i])
                    && self@[self.keys()[i]] == self.values()[i],
            forall|k: Seq<char>| #[trigger]
                self@.contains_key(k) ==> exists|i: int|
                    0 <= i < self.keys().len() && self.keys()[i] == k,
            self@.dom() == self.keys().to_set(),
            self@.dom().finite(),
            self@.len() == self.spec_len(),
    {
        assert forall|i: int| 0 <= i < self.keys().len() implies #[trigger] self@.contains_key(
            self.keys()[i],
        ) && self@[self.keys()[i]] == self.values()[i] by {
            self.lemma_position(i);
        }
        assert(self@.dom() =~= self.keys().to_set());
        vstd::seq_lib::seq_to_set_is_finite(self.keys());
        self.keys().unique_seq_to_set();
    }

    /// An empty map.
    pub fn new() -> (res: Self)
        ensures
            res.wf(),
            res@ == Map::<Seq<char>, V>::empty(),
            res.keys() == Seq::<Seq<char>>::empty(),
    {
        let res = StringMap { entries: Vec::new() };
        assert(res@ =~= Map::<Seq<char>, V>::empty());
        assert(res.keys() =~= Seq::<Seq<char>>::empty());
        res
    }

    /// The number of entries.
    pub fn len(&self) -> (res: usize)
        requires
            self.wf(),
        ensures
            res == self@.len(),
            res == self.spec_len(),
    {
        proof {
            self.lemma_entries();
        }
        self.entries.len()
    }

    /// Whether the map has no entries.
    pub fn is_empty(&self) -> (res: bool)
        requires
            self.wf(),
        ensures
            res == (self@.len() == 0),
            res == (self@ == Map::<Seq<char>, V>::empty()),
    {
        proof {
            self.lemma_entries();
            if self@.len() == 0 {
                assert(self@.dom() =~= Set::<Seq<char>>::empty());
                assert(self@ =~= Map::<Seq<char>, V>::empty());
            }
        }
        self.entries.len() == 0
    }

    /// Where `k` stands among the entries, if it is there.
    fn find(&self, k: &String) -> (res: Option<usize>)
        requires
            self.wf(),
        ensures
            match res {
                Some(i) => i < self.spec_len() && self.keys()[i as int] == k@,
                None => !self@.contains_key(k@),
            },
    {
        let mut i: usize = 0;
        while i < self.entries.len()
            invariant
                i <= self.entries@.len(),
                forall|j: int| 0 <= j < i ==> self.keys()[j] != k@,
            decreases self.entries@.len() - i,
        {
            if self.entries[i].0 == *k {
                return Some(i);
            }
            i = i + 1;
        }
        proof {
            if self@.contains_key(k@) {
                let j = self.position(k@);
                assert(0 <= j < self.keys().len() && self.keys()[j] == k@);
            }
        }
        None
    }

    /// Whether `k` has an entry.
    pub fn contains_key(&self, k: &String) -> (res: bool)
        requires
            self.wf(),
        ensures
            res == self@.contains_key(k@),
    {
        match self.find(k) {
            Some(i) => {
                proof {
                    self.lemma_position(i as int);
                }
                true
            },
            None => false,
        }
    }

    /// The value that `k` maps to, if any.
    pub fn get(&self, k: &String) -> (res: Option<&V>)
        requires
            self.wf(),
        ensures
            match res {
                Some(v) => self@.contains_key(k@) && *v == self@[k@],
                None => !self@.contains_key(k@),
            },
    {
        match self.find(k) {
            Some(i) => {
                proof {
                    self.lemma_position(i as int);
                }
                Some(&self.entries[i].1)
            },
            None => None,
        }
    }

    /// The key of the entry at `i`.
    pub fn key_at(&self, i: usize) -> (res: &String)
        requires
            i < self.spec_len(),
        ensures
            res@ == self.keys()[i as int],
    {
        &self.entries[i].0
    }

    /// The value of the entry at `i`.
    pub fn value_at(&self, i: usize) -> (res: &V)
        requires
            i < self.spec_len(),
        ensures
            *res == self.values()[i as int],
    {
        &self.entries[i].1
    }

    /// Maps `k` to `v`, in place of what it mapped to before.
    pub fn insert(&mut self, k: String, v: V)
        requires
            old(self).wf(),
        ensures
            final(self).wf(),
            final(self)@ == old(self)@.insert(k@, v),
            final(self).keys() == if old(self)@.contains_key(k@) {
                old(self).keys()
            } else {
                old(self).keys().push(k@)
            },
    {
        let ghost kv = k@;
        match self.find(&k) {
            Some(i) => {
                self.entries.set(i, (k, v));
                proof {
                    old(self).lemma_position(i as int);
                    assert(self.keys() =~= old(self).keys());
                    assert(self.values() =~= old(self).values().update(i as int, v));
                    self.lemma_position(i as int);
                    assert forall|key: Seq<char>| #[trigger]
                        self@.contains_key(key) implies self@[key] == old(self)@.insert(
                        kv,
                        v,
                    )[key] by {
                        let j = choose|j: int| 0 <= j < self.keys().len() && self.keys()[j] == key;
                        self.lemma_position(j);
                        old(self).lemma_position(j);
                    }
                    assert(self@ =~= old(self)@.insert(kv, v));
                }
            },
            None => {
                self.entries.push((k, v));
                proof {
                    let n = old(self).keys().len() as int;
                    assert(self.keys() =~= old(self).keys().push(kv));
                    assert(self.values() =~= old(self).values().push(v));
                    assert(!old(self).keys().contains(kv)) by {
                        if old(self).keys().contains(kv) {
                            let j = choose|j: int|
                                0 <= j < old(self).keys().len() && old(self).keys()[j] == kv;
                            old(self).lemma_position(j);
                        }
                    }
                    assert(self.wf());
                    self.lemma_position(n);
                    assert forall|key: Seq<char>| #[trigger]
                        self@.contains_key(key) implies self@[key] == old(self)@.insert(
                        kv,
                        v,
                    )[key] by {
                        let j = choose|j: int| 0 <= j < self.keys().len() && self.keys()[j] == key;
                        self.lemma_position(j);
                        if j < n {
                            old(self).lemma_position(j);
                        }
                    }
                    assert forall|key: Seq<char>|
                        #[trigger] old(self)@.contains_key(key) implies self@.contains_key(key) by {
                        let j = choose|j: int|
                            0 <= j < old(self).keys().len() && old(self).keys()[j] == key;
                        assert(self.keys()[j] == key);
                    }
                    assert(self@ =~= old(self)@.insert(kv, v));
                }
            },
        }
    }

    /// Removes the entry at `i`; the rest keep their order.
    fn remove_at(&mut self, i: usize) -> (res: (String, V))
        requires
            old(self).wf(),
            i < old(self).spec_len(),
        ensures
            final(self).wf(),
            old(self)@.contains_key(res.0@),
            old(self)@[res.0@] == res.1,
            res.0@ == old(self).keys()[i as int],
            final(self)@ == old(self)@.remove(res.0@),
            final(self).keys() == old(self).keys().remove(i as int),
    {
        let res = self.entries.remove(i);
        proof {
            let kv = res.0@;
            let n = old(self).keys().len() as int;
            old(self).lemma_position(i as int);
            assert(self.keys() =~= old(self).keys().remove(i as int));
            assert(self.values() =~= old(self).values().remove(i as int));
            assert(self.wf()) by {
                assert forall|a: int, b: int|
                    0 <= a < self.keys().len() && 0 <= b < self.keys().len() && a != b implies
                    self.keys()[a] != self.keys()[b] by {
                    let a2 = if a < i { a } else { a + 1 };
                    let b2 = if b < i { b } else { b + 1 };
                    assert(self.keys()[a] == old(self).keys()[a2]);
                    assert(self.keys()[b] == old(self).keys()[b2]);
                }
            }
            assert forall|key: Seq<char>| #[trigger]
                self@.contains_key(key) implies key != kv && self@[key] == old(self)@[key] by {
                let j = choose|j: int| 0 <= j < self.keys().len() && self.keys()[j] == key;
                let j2 = if j < i { j } else { j + 1 };
                assert(old(self).keys()[j2] == key);
                self.lemma_position(j);
                old(self).lemma_position(j2);
            }
            assert forall|key: Seq<char>|
                #[trigger] old(self)@.contains_key(key) && key != kv implies self@.contains_key(
                key,
            ) by {
                let j = choose|j: int|
                    0 <= j < old(self).keys().len() && old(self).keys()[j] == key;
                assert(j != i);
                let j2 = if j < i { j } else { j - 1 };
                assert(self.keys()[j2] == key);
            }
            assert(self@ =~= old(self)@.remove(kv));
        }
        res
    }

    /// Removes the entry of `k`, if any, and gives back its value.
    pub fn remove(&mut self, k: &String) -> (res: Option<V>)
        requires
            old(self).wf(),
        ensures
            final(self).wf(),
            final(self)@ == old(self)@.remove(k@),
            match res {
                Some(v) => {
                    &&& old(self)@.contains_key(k@)
                    &&& v == old(self)@[k@]
                    &&& exists|i: int|
                        0 <= i < old(self).keys().len() && old(self).keys()[i] == k@
                            && final(self).keys() == old(self).keys().remove(i)
                },
                None => !old(self)@.contains_key(k@) && final(self).keys() == old(self).keys(),
            },
    {
        match self.find(k) {
            Some(i) => {
                let (_key, v) = self.remove_at(i);
                proof {
                    assert(0 <= i < old(self).keys().len() && old(self).keys()[i as int] == k@
                        && self.keys() == old(self).keys().remove(i as int));
                }
                Some(v)
            },
            None => {
                proof {
                    assert(self@ =~= old(self)@.remove(k@));
                }
                None
            },
        }
    }

    /// Removes the first entry, if there is any, and gives back its key and value.
    pub fn take_one(&mut self) -> (res: Option<(String, V)>)
        requires
            old(self).wf(),
        ensures
            final(self).wf(),
            match res {
                Some((k, v)) => {
                    &&& k@ == old(self).keys()[0]
                    &&& old(self)@.contains_key(k@)
                    &&& old(self)@[k@] == v
                    &&& final(self)@ == old(self)@.remove(k@)
                    &&& final(self).keys() == old(self).keys().drop_first()
                },
                None => {
                    &&& old(self)@ == Map::<Seq<char>, V>::empty()
                    &&& final(self)@ == old(self)@
                    &&& final(self).keys() == old(self).keys()
                },
            },
    {
        if self.entries.len() == 0 {
            proof {
                self.lemma_entries();
                assert(self@.dom() =~= Set::<Seq<char>>::empty());
                assert(self@ =~= Map::<Seq<char>, V>::empty());
            }
            None
        } else {
            let (k, v) = self.remove_at(0);
            proof {
                assert(old(self).keys().remove(0) =~= old(self).keys().drop_first());
            }
            Some((k, v))
        }
    }

    /// Maps `k` to `v` unless `k` already has an entry, which then stays as it is.
    pub fn insert_if_absent(&mut self, k: String, v: V)
        requires
            old(self).wf(),
        ensures
            final(self).wf(),
            final(self)@ == if old(self)@.contains_key(k@) {
                old(self)@
            } else {
                old(self)@.insert(k@, v)
            },
            final(self).keys() == if old(self)@.contains_key(k@) {
                old(self).keys()
            } else {
                old(self).keys().push(k@)
            },
    {
        if !self.contains_key(&k) {
            self.insert(k, v);
        }
    }
}

impl<V> View for StringMap<V> {
    type V = Map<Seq<char>, V>;

    closed spec fn view(&self) -> Map<Seq<char>, V> {
        Map::new(
            |k: Seq<char>| self.keys().contains(k),
            |k: Seq<char>| self.values()[self.position(k)],
        )
    }
}

} // verus!
