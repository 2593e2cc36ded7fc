//! A keyed store with text keys: the maps of the system (registries of traits, templates,
//! gateway states, scripts, mappings). Each key occurs at most once; the model is a `Map`.
use vstd::prelude::*;
use crate::text::str_eq;

verus! {

/// Entries keyed by text, each key at most once.
#[derive(Debug)]
pub struct Registry<V> {
    entries: Vec<(String, V)>,
}

impl<V> Registry<V> {
    /// The key of entry `i`.
    pub closed spec fn key_at(&self, i: int) -> Seq<char> {
        self.entries@[i].0@
    }

    /// The number of entries.
    pub closed spec fn count(&self) -> nat {
        self.entries@.len()
    }

    /// No key occurs twice.
    #[verifier::type_invariant]
    pub closed spec fn wf(&self) -> bool {
        forall|i: int, j: int|
            0 <= i < self.entries@.len() && 0 <= j < self.entries@.len() && i != j
                ==> self.entries@[i].0@ != self.entries@[j].0@
    }

    /// Some entry has key `k`.
    pub closed spec fn has(&self, k: Seq<char>) -> bool {
        exists|i: int| 0 <= i < self.entries@.len() && self.entries@[i].0@ == k
    }

    /// The position of the entry with key `k`.
    pub closed spec fn index_of(&self, k: Seq<char>) -> int {
        choose|i: int| 0 <= i < self.entries@.len() && self.entries@[i].0@ == k
    }

    /// The model: the map from each key to its value.
    pub closed spec fn map(&self) -> Map<Seq<char>, V> {
        Map::new(|k: Seq<char>| self.has(k), |k: Seq<char>| self.entries@[self.index_of(k)].1)
    }

    /// The values, in the order of the entries.
    pub closed spec fn value_seq(&self) -> Seq<V> {
        Seq::new(self.entries@.len(), |i: int| self.entries@[i].1)
    }

    /// The keys, in the order of the entries.
    pub closed spec fn key_seq(&self) -> Seq<Seq<char>> {
        Seq::new(self.entries@.len(), |i: int| self.entries@[i].0@)
    }

    proof fn lemma_index_of(&self, i: int)
        requires
            self.wf(),
            0 <= i < self.entries@.len(),
        ensures
            self.has(self.key_at(i)),
            self.index_of(self.key_at(i)) == i,
            self.map().contains_key(self.key_at(i)),
            self.map()[self.key_at(i)] == self.entries@[i].1,
    {
        assert(self.entries@[i].0@ == self.key_at(i));
        let j = self.index_of(self.key_at(i));
        assert(self.entries@[j].0@ == self.key_at(i));
    }

    /// The model of the keys: every key of the map is the key of an entry and conversely.
    pub proof fn lemma_keys(&self)
        requires
            self.wf(),
        ensures
            self.map().dom().finite(),
            self.map().dom().len() == self.count(),
            self.key_seq().len() == self.count(),
            self.value_seq().len() == self.count(),
            forall|k: Seq<char>| #[trigger] self.map().contains_key(k) <==> self.key_seq().contains(k),
            forall|i: int|
                0 <= i < self.count() ==> #[trigger] self.map()[self.key_seq()[i]] == self.value_seq()[i],
            self.key_seq().no_duplicates(),
    {
        assert forall|k: Seq<char>| #[trigger] self.map().contains_key(k) <==> self.key_seq().contains(k) by {
            if self.map().contains_key(k) {
                let i = self.index_of(k);
                assert(self.key_seq()[i] == k);
            }
            if self.key_seq().contains(k) {
                let i = choose|i: int| 0 <= i < self.key_seq().len() && self.key_seq()[i] == k;
                assert(self.entries@[i].0@ == k);
            }
        }
        assert forall|i: int| 0 <= i < self.count() implies #[trigger] self.map()[self.key_seq()[i]]
            == self.value_seq()[i] by {
            self.lemma_index_of(i);
        }
        assert(self.map().dom() =~= self.key_seq().to_set());
        self.key_seq().unique_seq_to_set();
    }

    /// An empty store.
    pub fn new() -> (r: Self)
        ensures
            r.wf(),
            r.map() == Map::<Seq<char>, V>::empty(),
            r.count() == 0,
    {
        let r = Registry { entries: Vec::new() };
        assert(r.map() =~= Map::<Seq<char>, V>::empty());
        r
    }

    /// The number of entries.
    pub fn len(&self) -> (r: usize)
        ensures
            r == self.count(),
    {
        self.entries.len()
    }

    /// The position of `key`, if it is present.
    fn find(&self, key: &str) -> (r: Option<usize>)
        ensures
            match r {
                Some(i) => i < self.entries@.len() && self.key_at(i as int) == key@,
                None => !self.has(key@),
            },
    {
        let mut i: usize = 0;
        while i < self.entries.len()
            invariant
                i <= self.entries@.len(),
                forall|j: int| 0 <= j < i ==> self.entries@[j].0@ != key@,
            decreases self.entries@.len() - i,
        {
            if str_eq(self.entries[i].0.as_str(), key) {
                return Some(i);
            }
            i = i + 1;
        }
        None
    }

    /// `contains_key(key)`.
    pub fn contains_key(&self, key: &str) -> (r: bool)
        ensures
            r == self.map().contains_key(key@),
    {
        self.find(key).is_some()
    }

    /// `get(key)`.
    pub fn get(&self, key: &str) -> (r: Option<&V>)
        ensures
            match r {
                Some(v) => self.map().contains_key(key@) && self.map()[key@] == *v,
                None => !self.map().contains_key(key@),
            },
    {
        proof {
            use_type_invariant(self);
        }
        match self.find(key) {
            Some(i) => {
                proof {
                    self.lemma_index_of(i as int);
                }
                Some(&self.entries[i].1)
            },
            None => None,
        }
    }

    /// The value of entry `i`, in the order of the entries.
    pub fn value_at(&self, i: usize) -> (r: &V)
        requires
            i < self.count(),
        ensures
            *r == self.value_seq()[i as int],
    {
        &self.entries[i].1
    }

    /// The key of entry `i`, in the order of the entries.
    pub fn key_at_index(&self, i: usize) -> (r: &String)
        requires
            i < self.count(),
        ensures
            r@ == self.key_seq()[i as int],
    {
        &self.entries[i].0
    }

    /// `insert(key, val)`: the entry with that key gets the new value, or a new entry is added.
    pub fn insert(&mut self, key: String, val: V)
        ensures
            final(self).map() == old(self).map().insert(key@, val),
    {
        proof {
            use_type_invariant(&*self);
        }
        let ghost k = key@;
        let ghost old_self = *self;
        let found = self.find(key.as_str());
        let mut e: Vec<(String, V)> = Vec::new();
        std::mem::swap(&mut e, &mut self.entries);
        match found {
            Some(i) => {
                e.set(i, (key, val));
                proof {
                    let ns = Registry { entries: e };
                    assert forall|a: int, b: int|
                        0 <= a < ns.entries@.len() && 0 <= b < ns.entries@.len() && a != b
                            implies ns.entries@[a].0@ != ns.entries@[b].0@ by {
                        assert(old_self.entries@[a].0@ == ns.entries@[a].0@);
                        assert(old_self.entries@[b].0@ == ns.entries@[b].0@);
                    }
                    assert forall|q: Seq<char>| #[trigger] ns.has(q) == old_self.has(q) by {
                        if ns.has(q) {
                            let j = choose|j: int| 0 <= j < ns.entries@.len() && ns.entries@[j].0@ == q;
                            assert(old_self.entries@[j].0@ == q);
                        }
                        if old_self.has(q) {
                            let j = choose|j: int| 0 <= j < old_self.entries@.len() && old_self.entries@[j].0@ == q;
                            assert(ns.entries@[j].0@ == q);
                        }
                    }
                    assert forall|q: Seq<char>| ns.has(q) implies #[trigger] ns.map()[q] == old_self.map().insert(k, val)[q] by {
                        let j = ns.index_of(q);
                        ns.lemma_index_of(j);
                        if q != k {
                            old_self.lemma_index_of(j);
                        }
                    }
                    assert(ns.map() =~= old_self.map().insert(k, val));
                }
                self.entries = e;
            },
            None => {
                e.push((key, val));
                proof {
                    let ns = Registry { entries: e };
                    let n = old_self.entries@.len() as int;
                    assert forall|a: int, b: int|
                        0 <= a < ns.entries@.len() && 0 <= b < ns.entries@.len() && a != b
                            implies ns.entries@[a].0@ != ns.entries@[b].0@ by {
                        if a < n && b < n {
                            assert(old_self.entries@[a].0@ == ns.entries@[a].0@);
                            assert(old_self.entries@[b].0@ == ns.entries@[b].0@);
                        } else if a == n {
                            assert(old_self.entries@[b].0@ == ns.entries@[b].0@);
                        } else {
                            assert(old_self.entries@[a].0@ == ns.entries@[a].0@);
                        }
                    }
                    assert forall|q: Seq<char>| #[trigger] ns.has(q) == (old_self.has(q) || q == k) by {
                        if ns.has(q) {
                            let j = choose|j: int| 0 <= j < ns.entries@.len() && ns.entries@[j].0@ == q;
                            if j < n {
                                assert(old_self.entries@[j].0@ == q);
                            }
                        }
                        if old_self.has(q) {
                            let j = choose|j: int| 0 <= j < old_self.entries@.len() && old_self.entries@[j].0@ == q;
                            assert(ns.entries@[j].0@ == q);
                        }
                        if q == k {
                            assert(ns.entries@[n].0@ == q);
                        }
                    }
                    assert forall|q: Seq<char>| ns.has(q) implies #[trigger] ns.map()[q] == old_self.map().insert(k, val)[q] by {
                        let j = ns.index_of(q);
                        ns.lemma_index_of(j);
                        if j < n {
                            assert(old_self.entries@[j] == ns.entries@[j]);
                            old_self.lemma_index_of(j);
                        }
                    }
                    assert(ns.map() =~= old_self.map().insert(k, val));
                }
                self.entries = e;
            },
        }
    }

    /// `remove(key)`: the entry with that key, if any, is taken out and returned.
    pub fn remove(&mut self, key: &str) -> (r: Option<V>)
        ensures
            final(self).map() == old(self).map().remove(key@),
            match r {
                Some(v) => old(self).map().contains_key(key@) && old(self).map()[key@] == v,
                None => !old(self).map().contains_key(key@),
            },
    {
        proof {
            use_type_invariant(&*self);
        }
        let ghost old_self = *self;
        match self.find(key) {
            Some(i) => {
                proof {
                    old_self.lemma_index_of(i as int);
                }
                let mut e: Vec<(String, V)> = Vec::new();
                std::mem::swap(&mut e, &mut self.entries);
                let (_, v) = e.remove(i);
                proof {
                    let ns = Registry { entries: e };
                    let ii = i as int;
                    assert forall|a: int| 0 <= a < ns.entries@.len() implies #[trigger] ns.entries@[a]
                        == old_self.entries@[if a < ii { a } else { a + 1 }] by {}
                    assert forall|a: int, b: int|
                        0 <= a < ns.entries@.len() && 0 <= b < ns.entries@.len() && a != b
                            implies ns.entries@[a].0@ != ns.entries@[b].0@ by {
                        let a2 = if a < ii { a } else { a + 1 };
                        let b2 = if b < ii { b } else { b + 1 };
                        assert(ns.entries@[a] == old_self.entries@[a2]);
                        assert(ns.entries@[b] == old_self.entries@[b2]);
                    }
                    assert forall|q: Seq<char>| #[trigger] ns.has(q) == (old_self.has(q) && q != key@) by {
                        if ns.has(q) {
                            let j = choose|j: int| 0 <= j < ns.entries@.len() && ns.entries@[j].0@ == q;
                            let j2 = if j < ii { j } else { j + 1 };
                            assert(ns.entries@[j] == old_self.entries@[j2]);
                            assert(old_self.entries@[j2].0@ == q);
                        }
                        if old_self.has(q) && q != key@ {
                            let j = choose|j: int| 0 <= j < old_self.entries@.len() && old_self.entries@[j].0@ == q;
                            assert(j != ii);
                            let j2 = if j < ii { j } else { j - 1 };
                            assert(ns.entries@[j2] == old_self.entries@[j]);
                        }
                    }
                    assert forall|q: Seq<char>| ns.has(q) implies #[trigger] ns.map()[q] == old_self.map().remove(key@)[q] by {
                        let j = ns.index_of(q);
                        ns.lemma_index_of(j);
                        let j2 = if j < ii { j } else { j + 1 };
                        assert(ns.entries@[j] == old_self.entries@[j2]);
                        old_self.lemma_index_of(j2);
                    }
                    assert(ns.map() =~= old_self.map().remove(key@));
                }
                self.entries = e;
                Some(v)
            },
            None => {
                proof {
                    assert(self.map() =~= old_self.map().remove(key@));
                }
                None
            },
        }
    }
}

impl Registry<String> {
    /// A copy of the store.
    pub fn duplicate(&self) -> (r: Self)
        ensures
            r.map() == self.map(),
    {
        proof {
            use_type_invariant(self);
        }
        let mut out: Vec<(String, String)> = Vec::new();
        let mut i: usize = 0;
        while i < self.entries.len()
            invariant
                i <= self.entries@.len(),
                out@ == self.entries@.subrange(0, i as int),
            decreases self.entries@.len() - i,
        {
            let k = self.entries[i].0.clone();
            let v = self.entries[i].1.clone();
            out.push((k, v));
            assert(out@ =~= self.entries@.subrange(0, i + 1));
            i = i + 1;
        }
        assert(out@ =~= self.entries@);
        Registry { entries: out }
    }
}

} // verus!
