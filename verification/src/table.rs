//! A map keyed by strings, held as a list in which no key occurs twice.
//!
//! Session and transport identifiers are arbitrary strings, so the registry and
//! each session keep their members in a `Table`. Its view is a `Map` from the
//! key's characters to the value.

use vstd::prelude::*;

verus! {

struct Entry<V> {
    key: String,
    value: V,
}

/// A finite map from strings to values.
pub struct Table<V> {
    entries: Vec<Entry<V>>,
}

impl<V> View for Table<V> {
    type V = Map<Seq<char>, V>;

    closed spec fn view(&self) -> Map<Seq<char>, V> {
        Map::new(
            |k: Seq<char>| self.keys().contains(k),
            |k: Seq<char>| self.entries@[self.keys().index_of(k)].value,
        )
    }
}

impl<V> Table<V> {
    /// The keys, in the order in which the table holds them.
    pub closed spec fn keys(&self) -> Seq<Seq<char>> {
        Seq::new(self.entries@.len(), |i: int| self.entries@[i].key@)
    }

    #[verifier::type_invariant]
    spec fn distinct(&self) -> bool {
        self.keys().no_duplicates()
    }

    /// What the view holds for the key at a position of a list without repeated keys.
    proof fn lemma_view_at(&self, i: int)
        requires
            self.keys().no_duplicates(),
            0 <= i < self.keys().len(),
        ensures
            self@.contains_key(self.keys()[i]),
            self@[self.keys()[i]] == self.entries@[i].value,
    {
        let k = self.keys()[i];
        assert(self.keys().contains(k));
        let j = self.keys().index_of(k);
        assert(0 <= j < self.keys().len() && self.keys()[j] == k);
        assert(i == j);
    }

    /// An empty table.
    pub fn new() -> (t: Self)
        ensures
            t@ == Map::<Seq<char>, V>::empty(),
            t.keys() == Seq::<Seq<char>>::empty(),
    {
        let t = Table { entries: Vec::new() };
        assert(t.keys() =~= Seq::<Seq<char>>::empty());
        assert(t@ =~= Map::<Seq<char>, V>::empty());
        t
    }

    /// The number of keys. The keys are pairwise distinct and are exactly the
    /// domain of the view.
    pub fn len(&self) -> (n: usize)
        ensures
            n == self.keys().len(),
            self.keys().no_duplicates(),
            forall|k: Seq<char>| self@.contains_key(k) <==> self.keys().contains(k),
    {
        proof {
            use_type_invariant(self);
        }
        self.entries.len()
    }

    /// The position of a key, if the table holds it.
    fn position(&self, key: &String) -> (r: Option<usize>)
        ensures
            match r {
                Some(i) => i < self.keys().len() && self.keys()[i as int] == key@,
                None => !self.keys().contains(key@),
            },
    {
        let mut i: usize = 0;
        while i < self.entries.len()
            invariant
                i <= self.entries@.len(),
                self.keys().len() == self.entries@.len(),
                forall|j: int| 0 <= j < i ==> self.keys()[j] != key@,
            decreases self.entries@.len() - i,
        {
            if self.entries[i].key == *key {
                return Some(i);
            }
            i = i + 1;
        }
        None
    }

    /// Whether the table holds a key.
    pub fn contains_key(&self, key: &String) -> (b: bool)
        ensures
            b == self@.contains_key(key@),
    {
        self.position(key).is_some()
    }

    /// The value under a key.
    pub fn get(&self, key: &String) -> (r: Option<&V>)
        ensures
            match r {
                Some(v) => self@.contains_key(key@) && *v == self@[key@],
                None => !self@.contains_key(key@),
            },
    {
        proof {
            use_type_invariant(self);
        }
        match self.position(key) {
            Some(i) => {
                proof {
                    self.lemma_view_at(i as int);
                }
                Some(&self.entries[i].value)
            },
            None => None,
        }
    }

    /// The key at a position.
    pub fn key_at(&self, i: usize) -> (k: &String)
        requires
            i < self.keys().len(),
        ensures
            k@ == self.keys()[i as int],
    {
        &self.entries[i].key
    }

    /// The value at a position: the value that the view holds for the key there.
    pub fn value_at(&self, i: usize) -> (v: &V)
        requires
            i < self.keys().len(),
        ensures
            self@.contains_key(self.keys()[i as int]),
            *v == self@[self.keys()[i as int]],
    {
        proof {
            use_type_invariant(self);
            self.lemma_view_at(i as int);
        }
        &self.entries[i].value
    }

    /// Takes a key and its value out of the table.
    pub fn remove(&mut self, key: &String) -> (r: Option<V>)
        ensures
            final(self)@ == old(self)@.remove(key@),
            match r {
                Some(v) => old(self)@.contains_key(key@) && v == old(self)@[key@],
                None => !old(self)@.contains_key(key@),
            },
    {
        proof {
            use_type_invariant(&*self);
        }
        let found = self.position(key);
        match found {
            None => {
                assert(self@ =~= old(self)@.remove(key@));
                None
            },
            Some(i) => {
                let ghost before = *self;
                let mut entries: Vec<Entry<V>> = Vec::new();
                std::mem::swap(&mut entries, &mut self.entries);
                let entry = entries.remove(i);
                let ghost after = Table { entries };
                proof {
                    before.lemma_view_at(i as int);
                    assert(after.keys() =~= before.keys().remove(i as int));
                    assert(after.keys().no_duplicates());
                    assert forall|k: Seq<char>| #[trigger]
                        after@.contains_key(k) <==> before@.remove(key@).contains_key(k) by {
                        if after.keys().contains(k) {
                            let j = after.keys().index_of(k);
                            let jj = if j < i { j } else { j + 1 };
                            assert(before.keys()[jj] == k);
                        }
                        if before.keys().contains(k) && k != key@ {
                            let j = before.keys().index_of(k);
                            let jj = if j < i { j } else { j - 1 };
                            assert(after.keys()[jj] == k);
                        }
                    }
                    assert forall|k: Seq<char>| #[trigger]
                        after@.contains_key(k) implies after@[k] == before@.remove(key@)[k] by {
                        let j = after.keys().index_of(k);
                        let jj = if j < i { j } else { j + 1 };
                        after.lemma_view_at(j);
                        before.lemma_view_at(jj);
                    }
                    assert(after@ =~= before@.remove(key@));
                }
                self.entries = entries;
                Some(entry.value)
            },
        }
    }

    /// Puts a value under a key, in place of the value that was there, if any.
    pub fn insert(&mut self, key: String, value: V)
        ensures
            final(self)@ == old(self)@.insert(key@, value),
    {
        let _ = self.remove(&key);
        proof {
            use_type_invariant(&*self);
        }
        let ghost before = *self;
        let mut entries: Vec<Entry<V>> = Vec::new();
        std::mem::swap(&mut entries, &mut self.entries);
        entries.push(Entry { key, value });
        let ghost after = Table { entries };
        proof {
            let n = before.keys().len() as int;
            assert(after.keys() =~= before.keys().push(key@));
            assert(!before@.contains_key(key@));
            assert(!before.keys().contains(key@));
            assert(after.keys().no_duplicates());
            after.lemma_view_at(n);
            assert forall|k: Seq<char>| #[trigger]
                after@.contains_key(k) <==> before@.insert(key@, value).contains_key(k) by {
                if after.keys().contains(k) {
                    let j = after.keys().index_of(k);
                    if j < n {
                        assert(before.keys()[j] == k);
                    }
                }
                if before.keys().contains(k) {
                    let j = before.keys().index_of(k);
                    assert(after.keys()[j] == k);
                }
            }
            assert forall|k: Seq<char>| #[trigger]
                after@.contains_key(k) implies after@[k] == before@.insert(key@, value)[k] by {
                let j = after.keys().index_of(k);
                after.lemma_view_at(j);
                if j < n {
                    before.lemma_view_at(j);
                }
            }
            assert(after@ =~= before@.insert(key@, value));
            assert(before@ =~= old(self)@.remove(key@));
            assert(before@.insert(key@, value) =~= old(self)@.insert(key@, value));
        }
        self.entries = entries;
    }
}

} // verus!
