//! A small string-keyed table that keeps its entries in insertion order.

use vstd::prelude::*;

verus! {

/// An insertion-ordered association table from strings to values in which
/// no key occurs twice.
///
/// The table is viewed as a `Map<Seq<char>, V>`; `order` gives the keys in
/// the order in which positional access visits them.
#[derive(Debug, PartialEq, Eq)]
pub struct Table<V> {
    entries: Vec<(String, V)>,
}

impl<V> View for Table<V> {
    type V = Map<Seq<char>, V>;

    closed spec fn view(&self) -> Map<Seq<char>, V> {
        Map::new(
            |k: Seq<char>| self.order().contains(k),
            |k: Seq<char>| self.entries@[self.order().index_of(k)].1,
        )
    }
}

impl<V: Clone> Clone for Table<V> {
    /// A table with the same keys in the same order, each value a clone of
    /// the value it stands for.
    fn clone(&self) -> (r: Self)
        ensures
            r.order() == self.order(),
            r@.dom() == self@.dom(),
            forall|k: Seq<char>| #[trigger] self@.contains_key(k) ==> cloned(self@[k], r@[k]),
    {
        proof {
            use_type_invariant(self);
        }
        let mut entries: Vec<(String, V)> = Vec::new();
        let mut i: usize = 0;
        while i < self.entries.len()
            invariant
                i <= self.entries@.len(),
                entries@.len() == i,
                forall|j: int|
                    0 <= j < i ==> (#[trigger] entries@[j]).0@ == self.entries@[j].0@ && cloned(
                        self.entries@[j].1,
                        entries@[j].1,
                    ),
            decreases self.entries@.len() - i,
        {
            let key = self.entries[i].0.clone();
            let value = self.entries[i].1.clone();
            entries.push((key, value));
            i = i + 1;
        }
        let ghost made = Table { entries };
        proof {
            assert(made.order() =~= self.order());
        }
        Table { entries }
    }
}

impl<V> Table<V> {
    /// The keys of the table, in positional order.
    pub closed spec fn order(self) -> Seq<Seq<char>> {
        Seq::new(self.entries@.len(), |i: int| self.entries@[i].0@)
    }

    #[verifier::type_invariant]
    closed spec fn keys_are_distinct(self) -> bool {
        self.order().no_duplicates()
    }

    /// What the view and the positional order have to do with each other.
    pub proof fn lemma_order(self)
        requires
            self.order().no_duplicates(),
        ensures
            self@.dom() == self.order().to_set(),
            self@.dom().finite(),
            self@.dom().len() == self.order().len(),
    {
        self.order().unique_seq_to_set();
    }

    /// An empty table.
    pub fn new() -> (r: Self)
        ensures
            r@ == Map::<Seq<char>, V>::empty(),
            r.order() == Seq::<Seq<char>>::empty(),
    {
        Table { entries: Vec::new() }
    }

    /// The number of entries.
    pub fn len(&self) -> (r: usize)
        ensures
            r == self.order().len(),
            r == self@.dom().len(),
            self.order().no_duplicates(),
    {
        proof {
            use_type_invariant(self);
            self.lemma_order();
        }
        self.entries.len()
    }

    fn position(&self, key: &str) -> (r: Option<usize>)
        ensures
            match r {
                Some(i) => i < self.order().len() && self.order()[i as int] == key@,
                None => !self.order().contains(key@),
            },
    {
        let wanted = key.to_owned();
        let mut i: usize = 0;
        while i < self.entries.len()
            invariant
                i <= self.entries@.len(),
                wanted@ == key@,
                forall|j: int| 0 <= j < i ==> self.order()[j] != key@,
            decreases self.entries@.len() - i,
        {
            if self.entries[i].0 == wanted {
                return Some(i);
            }
            i = i + 1;
        }
        None
    }

    /// Whether `key` has an entry.
    pub fn contains_key(&self, key: &str) -> (r: bool)
        ensures
            r == self@.contains_key(key@),
    {
        self.position(key).is_some()
    }

    /// The value stored under `key`, if there is one.
    pub fn get(&self, key: &str) -> (r: Option<&V>)
        ensures
            match r {
                Some(v) => self@.contains_key(key@) && *v == self@[key@],
                None => !self@.contains_key(key@),
            },
    {
        proof {
            use_type_invariant(self);
        }
        match self.position(key) {
            Some(i) => Some(&self.entries[i].1),
            None => None,
        }
    }

    /// Stores `value` under `key`, replacing what was stored there before.
    /// A new key goes to the end of the positional order; a known key keeps
    /// its place.
    pub fn insert(&mut self, key: String, value: V)
        ensures
            final(self)@ == old(self)@.insert(key@, value),
            old(self)@.contains_key(key@) ==> final(self).order() == old(self).order(),
            !old(self)@.contains_key(key@) ==> final(self).order() == old(self).order().push(key@),
    {
        proof {
            use_type_invariant(&*self);
        }
        let ghost before = *self;
        let found = self.position(key.as_str());
        let mut taken = Table { entries: Vec::new() };
        core::mem::swap(self, &mut taken);
        let Table { entries } = taken;
        let mut entries = entries;
        match found {
            Some(i) => {
                entries.set(i, (key, value));
            },
            None => {
                entries.push((key, value));
            },
        }
        let ghost after = Table { entries };
        proof {
            if found is Some {
                assert(after.order() =~= before.order());
            } else {
                assert(after.order() =~= before.order().push(key@));
            }
            let wanted = before@.insert(key@, value);
            assert forall|k: Seq<char>| after@.contains_key(k) <==> wanted.contains_key(k) by {
                if before.order().contains(k) {
                    assert(after.order()[before.order().index_of(k)] == k);
                }
                if k == key@ && found is None {
                    assert(after.order()[before.order().len() as int] == k);
                }
            }
        }
        *self = Table { entries };
    }

    /// Takes the entry of `key` out of the table, if there is one. The
    /// entries behind it move up by one place.
    pub fn remove(&mut self, key: &str) -> (r: Option<V>)
        ensures
            final(self)@ == old(self)@.remove(key@),
            match r {
                Some(v) => old(self)@.contains_key(key@) && v == old(self)@[key@],
                None => !old(self)@.contains_key(key@),
            },
    {
        proof {
            use_type_invariant(&*self);
        }
        let ghost before = *self;
        match self.position(key) {
            Some(i) => {
                let mut taken = Table { entries: Vec::new() };
                core::mem::swap(self, &mut taken);
                let Table { entries } = taken;
                let mut entries = entries;
                let (_, value) = entries.remove(i);
                let ghost after = Table { entries };
                proof {
                    assert forall|a: int, b: int|
                        0 <= a < after.order().len() && 0 <= b < after.order().len() && a
                            != b implies after.order()[a] != after.order()[b] by {
                        let a0 = if a < i { a } else { a + 1 };
                        let b0 = if b < i { b } else { b + 1 };
                        assert(after.order()[a] == before.order()[a0]);
                        assert(after.order()[b] == before.order()[b0]);
                    }
                    let wanted = before@.remove(key@);
                    assert forall|k: Seq<char>| after@.contains_key(k) <==> wanted.contains_key(
                        k,
                    ) by {
                        if after.order().contains(k) {
                            let j = after.order().index_of(k);
                            let j0 = if j < i { j } else { j + 1 };
                            assert(before.order()[j0] == k);
                        }
                        if before.order().contains(k) && k != key@ {
                            let j0 = before.order().index_of(k);
                            let j = if j0 < i { j0 } else { j0 - 1 };
                            assert(after.order()[j] == k);
                        }
                    }
                    assert forall|k: Seq<char>| after@.contains_key(k) implies after@[k]
                        == wanted[k] by {
                        let j = after.order().index_of(k);
                        let j0 = if j < i { j } else { j + 1 };
                        assert(before.order()[j0] == k);
                    }
                }
                *self = Table { entries };
                Some(value)
            },
            None => None,
        }
    }

    /// The key at position `i`.
    pub fn key_at(&self, i: usize) -> (r: &String)
        requires
            i < self.order().len(),
        ensures
            r@ == self.order()[i as int],
            self@.contains_key(r@),
    {
        &self.entries[i].0
    }

    /// The value at position `i`.
    pub fn value_at(&self, i: usize) -> (r: &V)
        requires
            i < self.order().len(),
        ensures
            self@.contains_key(self.order()[i as int]),
            *r == self@[self.order()[i as int]],
    {
        proof {
            use_type_invariant(self);
        }
        &self.entries[i].1
    }
}

} // verus!
