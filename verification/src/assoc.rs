//! A map kept as a vector of entries with distinct keys, seen as a `Map`.
use vstd::prelude::*;
use crate::primitives::MapKey;

verus! {

/// No key occurs twice among the entries.
pub open spec fn keys_unique<K, V>(s: Seq<(K, V)>) -> bool {
    forall|i: int, j: int|
        0 <= i < s.len() && 0 <= j < s.len() && i != j ==> #[trigger] s[i].0 != #[trigger] s[j].0
}

/// Some entry has key `k`.
pub open spec fn has_key<K, V>(s: Seq<(K, V)>, k: K) -> bool {
    exists|i: int| 0 <= i < s.len() && #[trigger] s[i].0 == k
}

/// The map that a sequence of entries with distinct keys stands for.
pub open spec fn entries_map<K, V>(s: Seq<(K, V)>) -> Map<K, V> {
    Map::new(
        |k: K| has_key(s, k),
        |k: K| s[choose|i: int| 0 <= i < s.len() && #[trigger] s[i].0 == k].1,
    )
}

/// Each entry is in the map, under its key.
pub proof fn lemma_entry_in_map<K, V>(s: Seq<(K, V)>, i: int)
    requires
        keys_unique(s),
        0 <= i < s.len(),
    ensures
        entries_map(s).contains_key(s[i].0),
        entries_map(s)[s[i].0] == s[i].1,
{
    assert(has_key(s, s[i].0));
    let j = choose|j: int| 0 <= j < s.len() && #[trigger] s[j].0 == s[i].0;
    assert(j == i);
}

/// A map from keys to values, held as a vector of entries with distinct keys.
#[derive(Debug)]
pub struct AssocMap<K, V> {
    entries: Vec<(K, V)>,
}

impl<K, V> View for AssocMap<K, V> {
    type V = Map<K, V>;

    closed spec fn view(&self) -> Map<K, V> {
        entries_map(self.entries@)
    }
}

impl<K, V> AssocMap<K, V> {
    /// The entries have distinct keys.
    #[verifier::type_invariant]
    pub closed spec fn inv(self) -> bool {
        keys_unique(self.entries@)
    }
}

impl<K: MapKey, V: Copy> Clone for AssocMap<K, V> {
    /// A copy with the same entries.
    fn clone(&self) -> (r: Self)
        ensures
            r@ == self@,
    {
        self.copied()
    }
}

impl<K: MapKey, V> AssocMap<K, V> {
    /// The entries in the order in which they are kept.
    pub closed spec fn entries(&self) -> Seq<(K, V)> {
        self.entries@
    }

    /// The map is the entries, and every key is found among them exactly once.
    pub proof fn lemma_entries(&self)
        requires
            self.inv(),
        ensures
            keys_unique(self.entries()),
            self@ == entries_map(self.entries()),
            forall|i: int|
                0 <= i < self.entries().len() ==> #[trigger] self@.contains_key(self.entries()[i].0)
                    && self@[self.entries()[i].0] == self.entries()[i].1,
            forall|k: K| #[trigger] self@.contains_key(k) <==> has_key(self.entries(), k),
    {
        assert forall|i: int| 0 <= i < self.entries().len() implies #[trigger] self@.contains_key(
            self.entries()[i].0,
        ) && self@[self.entries()[i].0] == self.entries()[i].1 by {
            lemma_entry_in_map(self.entries@, i);
        }
    }

    pub fn new() -> (r: Self)
        ensures
            r@ == Map::<K, V>::empty(),
            r.entries().len() == 0,
    {
        let r = AssocMap { entries: Vec::new() };
        assert(r@ =~= Map::<K, V>::empty());
        r
    }

    /// The number of entries.
    pub fn len(&self) -> (r: usize)
        ensures
            r == self.entries().len(),
    {
        self.entries.len()
    }

    /// The entry at position `i`.
    pub fn entry_at(&self, i: usize) -> (r: &(K, V))
        requires
            i < self.entries().len(),
        ensures
            *r == self.entries()[i as int],
    {
        &self.entries[i]
    }

    /// The position of the entry with key `k`, if any.
    fn find(&self, k: &K) -> (r: Option<usize>)
        ensures
            match r {
                Some(i) => i < self.entries().len() && self.entries()[i as int].0 == *k,
                None => !has_key(self.entries(), *k),
            },
    {
        let mut i: usize = 0;
        while i < self.entries.len()
            invariant
                i <= self.entries@.len(),
                forall|j: int| 0 <= j < i ==> self.entries@[j].0 != *k,
            decreases self.entries@.len() - i,
        {
            if self.entries[i].0.same_key(k) {
                return Some(i);
            }
            i = i + 1;
        }
        None
    }

    pub fn contains_key(&self, k: &K) -> (r: bool)
        ensures
            r == self@.contains_key(*k),
    {
        proof {
            use_type_invariant(self);
            self.lemma_entries();
        }
        self.find(k).is_some()
    }

    pub fn get(&self, k: &K) -> (r: Option<&V>)
        ensures
            match r {
                Some(v) => self@.contains_key(*k) && self@[*k] == *v,
                None => !self@.contains_key(*k),
            },
    {
        proof {
            use_type_invariant(self);
            self.lemma_entries();
        }
        match self.find(k) {
            Some(i) => Some(&self.entries[i].1),
            None => None,
        }
    }

    /// A copy of a map whose keys and values are plain values.
    pub fn copied(&self) -> (r: Self)
        where
            V: Copy,
        ensures
            r@ == self@,
            r.entries() == self.entries(),
    {
        let mut entries: Vec<(K, V)> = Vec::new();
        let mut i: usize = 0;
        while i < self.entries.len()
            invariant
                i <= self.entries@.len(),
                entries@ == self.entries@.take(i as int),
            decreases self.entries@.len() - i,
        {
            let e = self.entries[i];
            entries.push(e);
            proof {
                assert(self.entries@.take(i + 1) =~= self.entries@.take(i as int).push(e));
            }
            i = i + 1;
        }
        proof {
            use_type_invariant(self);
            assert(self.entries@.take(i as int) =~= self.entries@);
        }
        AssocMap { entries }
    }

    /// Maps `k` to `v`, replacing any earlier value of `k`.
    pub fn insert(&mut self, k: K, v: V)
        ensures
            final(self)@ == old(self)@.insert(k, v),
    {
        proof {
            use_type_invariant(&*self);
            self.lemma_entries();
        }
        let ghost old_entries = self.entries@;
        let found = self.find(&k);
        let mut entries = Vec::new();
        std::mem::swap(&mut entries, &mut self.entries);
        match found {
            Some(i) => {
                entries.set(i, (k, v));
            },
            None => {
                entries.push((k, v));
            },
        }
        proof {
            let s = entries@;
            assert(keys_unique(s));
            assert forall|key: K| #[trigger] entries_map(s).contains_key(key) <==> entries_map(
                old_entries,
            ).insert(k, v).contains_key(key) by {
                if has_key(old_entries, key) && key != k {
                    let j = choose|j: int| 0 <= j < old_entries.len() && #[trigger] old_entries[j].0 == key;
                    assert(s[j].0 == key);
                }
                if key == k {
                    match found {
                        Some(i) => assert(s[i as int].0 == k),
                        None => assert(s[s.len() - 1].0 == k),
                    }
                }
            }
            assert forall|key: K| #[trigger] entries_map(s).contains_key(key) implies entries_map(
                s,
            )[key] == entries_map(old_entries).insert(k, v)[key] by {
                let j = choose|j: int| 0 <= j < s.len() && #[trigger] s[j].0 == key;
                lemma_entry_in_map(s, j);
                if key != k {
                    lemma_entry_in_map(old_entries, j);
                }
            }
            assert(entries_map(s) =~= entries_map(old_entries).insert(k, v));
        }
        self.entries = entries;
    }

    /// Removes `k` and hands back its value, if present.
    pub fn remove(&mut self, k: &K) -> (r: Option<V>)
        ensures
            final(self)@ == old(self)@.remove(*k),
            match r {
                Some(v) => old(self)@.contains_key(*k) && old(self)@[*k] == v,
                None => !old(self)@.contains_key(*k),
            },
    {
        proof {
            use_type_invariant(&*self);
        }
        let ghost old_entries = self.entries@;
        let found = self.find(k);
        match found {
            Some(i) => {
                let mut entries = Vec::new();
                std::mem::swap(&mut entries, &mut self.entries);
                let (_, v) = entries.remove(i);
                proof {
                    lemma_entry_in_map(old_entries, i as int);
                    let s = entries@;
                    assert(s =~= old_entries.remove(i as int));
                    assert(keys_unique(s));
                    assert forall|key: K| #[trigger] entries_map(s).contains_key(key)
                        <==> entries_map(old_entries).remove(*k).contains_key(key) by {
                        if has_key(old_entries, key) && key != *k {
                            let j = choose|j: int| 0 <= j < old_entries.len() && #[trigger] old_entries[j].0 == key;
                            if j < i {
                                assert(s[j].0 == key);
                            } else {
                                assert(j != i);
                                assert(s[j - 1].0 == key);
                            }
                        }
                        if has_key(s, key) {
                            let j = choose|j: int| 0 <= j < s.len() && #[trigger] s[j].0 == key;
                            if j < i {
                                assert(old_entries[j].0 == key);
                            } else {
                                assert(old_entries[j + 1].0 == key);
                            }
                        }
                    }
                    assert forall|key: K| #[trigger] entries_map(s).contains_key(key) implies entries_map(
                        s,
                    )[key] == entries_map(old_entries).remove(*k)[key] by {
                        let j = choose|j: int| 0 <= j < s.len() && #[trigger] s[j].0 == key;
                        lemma_entry_in_map(s, j);
                        if j < i {
                            lemma_entry_in_map(old_entries, j);
                        } else {
                            lemma_entry_in_map(old_entries, j + 1);
                        }
                    }
                    assert(entries_map(s) =~= entries_map(old_entries).remove(*k));
                }
                self.entries = entries;
                Some(v)
            },
            None => {
                proof {
                    assert(entries_map(old_entries) =~= entries_map(old_entries).remove(*k));
                }
                None
            },
        }
    }
}

} // verus!
