//! A small map keyed by text.
//!
//! Actors, handlers and entities are all found by a textual name. The table
//! keeps its entries in the order in which their keys first came, so that a
//! walk over it is the same on every node, and never holds a key twice.
use vstd::prelude::*;

verus! {

/// A map from text to `V` that remembers the order in which keys came.
pub struct Table<V> {
    entries: Vec<(String, V)>,
}

/// Whether one of `entries` has the key `key`.
pub open spec fn has_key<V>(entries: Seq<(String, V)>, key: Seq<char>) -> bool {
    exists|i: int| 0 <= i < entries.len() && (#[trigger] entries[i]).0@ == key
}

/// Where the entry with the key `key` stands.
pub open spec fn slot<V>(entries: Seq<(String, V)>, key: Seq<char>) -> int {
    choose|i: int| 0 <= i < entries.len() && (#[trigger] entries[i]).0@ == key
}

/// Whether no key occurs twice in `entries`.
pub open spec fn distinct_keys<V>(entries: Seq<(String, V)>) -> bool {
    forall|i: int, j: int|
        0 <= i < j < entries.len() ==> (#[trigger] entries[i]).0@ != (#[trigger] entries[j]).0@
}

/// The keys of entries without a key twice: each key of the map they make
/// is among them, once.
pub proof fn lemma_keys_name_the_map<V>(entries: Seq<(String, V)>)
    requires
        distinct_keys(entries),
    ensures
        entries.map_values(|e: (String, V)| e.0@).no_duplicates(),
        forall|key: Seq<char>|
            has_key(entries, key) <==> entries.map_values(|e: (String, V)| e.0@).contains(key),
{
    let keys = entries.map_values(|e: (String, V)| e.0@);
    assert forall|i: int, j: int| 0 <= i < keys.len() && 0 <= j < keys.len() && i != j implies keys[i]
        != keys[j] by {
        if i < j {
            assert(entries[i].0@ != entries[j].0@);
        } else {
            assert(entries[j].0@ != entries[i].0@);
        }
    }
    assert forall|key: Seq<char>| has_key(entries, key) <==> keys.contains(key) by {
        if has_key(entries, key) {
            let i = slot(entries, key);
            assert(keys[i] == key);
        }
        if keys.contains(key) {
            let i = keys.index_of(key);
            assert(entries[i].0@ == key);
        }
    }
}

impl<V> Table<V> {
    #[verifier::type_invariant]
    spec fn distinct(self) -> bool {
        distinct_keys(self.entries@)
    }

    /// The entries in the order in which their keys came.
    pub closed spec fn entries(&self) -> Seq<(String, V)> {
        self.entries@
    }

    /// The keys in the order in which they came.
    pub open spec fn keys(&self) -> Seq<Seq<char>> {
        self.entries().map_values(|e: (String, V)| e.0@)
    }

    /// The table as a map from key to value.
    pub open spec fn map(&self) -> Map<Seq<char>, V> {
        Map::new(
            |key: Seq<char>| has_key(self.entries(), key),
            |key: Seq<char>| self.entries()[slot(self.entries(), key)].1,
        )
    }

    /// A table without entries.
    pub fn new() -> (table: Table<V>)
        ensures
            table.entries() == Seq::<(String, V)>::empty(),
            table.map() == Map::<Seq<char>, V>::empty(),
    {
        let table = Table { entries: Vec::new() };
        assert(table.map() =~= Map::<Seq<char>, V>::empty());
        table
    }

    /// How many entries the table has.
    pub fn len(&self) -> (n: usize)
        ensures
            n == self.entries().len(),
            n == self.map().len(),
            self.map().dom().finite(),
            distinct_keys(self.entries()),
    {
        proof {
            use_type_invariant(self);
            lemma_keys_name_the_map(self.entries@);
            self.keys().unique_seq_to_set();
            assert(self.map().dom() =~= self.keys().to_set());
        }
        self.entries.len()
    }

    /// Where the entry with the key `key` stands, if there is one.
    fn find(&self, key: &str) -> (at: Option<usize>)
        ensures
            at.is_some() == has_key(self.entries(), key@),
            at matches Some(i) ==> i == slot(self.entries(), key@) && i < self.entries().len()
                && self.entries()[i as int].0@ == key@,
    {
        proof {
            use_type_invariant(self);
        }
        let wanted: String = key.to_owned();
        let mut i: usize = 0;
        while i < self.entries.len()
            invariant
                i <= self.entries.len(),
                wanted@ == key@,
                distinct_keys(self.entries@),
                forall|j: int| 0 <= j < i ==> self.entries@[j].0@ != key@,
            decreases self.entries.len() - i,
        {
            if self.entries[i].0 == wanted {
                proof {
                    let k = slot(self.entries@, key@);
                    assert(self.entries@[i as int].0@ == key@);
                    if k < i {
                        assert(self.entries@[k].0@ != self.entries@[i as int].0@);
                    } else if i < k {
                        assert(self.entries@[i as int].0@ != self.entries@[k].0@);
                    }
                }
                return Some(i);
            }
            i += 1;
        }
        None
    }

    /// Whether the table has an entry for `key`.
    pub fn contains_key(&self, key: &str) -> (found: bool)
        ensures
            found == self.map().contains_key(key@),
    {
        self.find(key).is_some()
    }

    /// The value stored under `key`.
    pub fn get(&self, key: &str) -> (value: Option<&V>)
        ensures
            value == if self.map().contains_key(key@) {
                Some(&self.map()[key@])
            } else {
                None
            },
    {
        match self.find(key) {
            Some(i) => Some(&self.entries[i].1),
            None => None,
        }
    }

    /// Stores `value` under `key` and hands back what was stored there
    /// before. A new key goes to the end; a known key keeps its place.
    pub fn insert(&mut self, key: String, value: V) -> (previous: Option<V>)
        ensures
            final(self).map() == old(self).map().insert(key@, value),
            previous == if old(self).map().contains_key(key@) {
                Some(old(self).map()[key@])
            } else {
                None
            },
            final(self).keys() == if old(self).map().contains_key(key@) {
                old(self).keys()
            } else {
                old(self).keys().push(key@)
            },
    {
        proof {
            use_type_invariant(&*self);
        }
        let ghost before = self.entries@;
        match self.find(key.as_str()) {
            Some(i) => {
                let mut entries: Vec<(String, V)> = Vec::new();
                std::mem::swap(&mut self.entries, &mut entries);
                let mut entry = (key, value);
                std::mem::swap(&mut entries[i], &mut entry);
                proof {
                    let after = entries@;
                    assert(after == before.update(i as int, (key, value)));
                    assert forall|k: Seq<char>| has_key(after, k) == has_key(before, k) by {
                        if has_key(after, k) {
                            let j = slot(after, k);
                            assert(before[j].0@ == k);
                        }
                        if has_key(before, k) {
                            let j = slot(before, k);
                            assert(after[j].0@ == k);
                        }
                    }
                    assert(distinct_keys(after)) by {
                        assert forall|a: int, b: int| 0 <= a < b < after.len() implies (
                        #[trigger] after[a]).0@ != (#[trigger] after[b]).0@ by {
                            assert(before[a].0@ != before[b].0@);
                        }
                    }
                    assert forall|k: Seq<char>| has_key(after, k) implies after[slot(after, k)].1
                        == (if k == key@ {
                        value
                    } else {
                        before[slot(before, k)].1
                    }) by {
                        let j = slot(after, k);
                        let j0 = slot(before, k);
                        assert(before[j].0@ == k);
                        if j < j0 {
                            assert(before[j].0@ != before[j0].0@);
                        } else if j0 < j {
                            assert(before[j0].0@ != before[j].0@);
                        }
                    }
                }
                self.entries = entries;
                proof {
                    assert(self.map() =~= old(self).map().insert(key@, value));
                    assert(self.keys() =~= old(self).keys());
                }
                Some(entry.1)
            },
            None => {
                let mut entries: Vec<(String, V)> = Vec::new();
                std::mem::swap(&mut self.entries, &mut entries);
                entries.push((key, value));
                proof {
                    let after = entries@;
                    let n = before.len() as int;
                    assert(after[n].0@ == key@);
                    assert(distinct_keys(after)) by {
                        assert forall|a: int, b: int| 0 <= a < b < after.len() implies (
                        #[trigger] after[a]).0@ != (#[trigger] after[b]).0@ by {
                            if b < n {
                                assert(before[a].0@ != before[b].0@);
                            } else {
                                assert(before[a].0@ != key@);
                            }
                        }
                    }
                    assert forall|k: Seq<char>| has_key(after, k) == (k == key@ || has_key(
                        before,
                        k,
                    )) by {
                        if has_key(after, k) {
                            let j = slot(after, k);
                            if j < n {
                                assert(before[j].0@ == k);
                            }
                        }
                        if has_key(before, k) {
                            let j = slot(before, k);
                            assert(after[j].0@ == k);
                        }
                    }
                    assert forall|k: Seq<char>| has_key(before, k) implies after[slot(after, k)].1
                        == before[slot(before, k)].1 by {
                        let j = slot(after, k);
                        let j0 = slot(before, k);
                        assert(after[j0].0@ == k);
                        if j < j0 {
                            assert(after[j].0@ != after[j0].0@);
                        } else if j0 < j {
                            assert(after[j0].0@ != after[j].0@);
                        }
                    }
                    assert(after[slot(after, key@)].1 == value) by {
                        let j = slot(after, key@);
                        if j < n {
                            assert(after[j].0@ != after[n].0@);
                        }
                    }
                }
                self.entries = entries;
                proof {
                    assert(self.map() =~= old(self).map().insert(key@, value));
                    assert(self.keys() =~= old(self).keys().push(key@));
                }
                None
            },
        }
    }

    /// Takes the entry for `key` out of the table.
    pub fn remove(&mut self, key: &str) -> (previous: Option<V>)
        ensures
            final(self).map() == old(self).map().remove(key@),
            previous == if old(self).map().contains_key(key@) {
                Some(old(self).map()[key@])
            } else {
                None
            },
            final(self).keys() == if old(self).map().contains_key(key@) {
                old(self).keys().remove(slot(old(self).entries(), key@))
            } else {
                old(self).keys()
            },
    {
        proof {
            use_type_invariant(&*self);
        }
        let ghost before = self.entries@;
        match self.find(key) {
            Some(i) => {
                let mut entries: Vec<(String, V)> = Vec::new();
                std::mem::swap(&mut self.entries, &mut entries);
                let entry = entries.remove(i);
                proof {
                    let after = entries@;
                    let at = i as int;
                    assert(after == before.remove(at));
                    assert forall|j: int| 0 <= j < after.len() implies (#[trigger] after[j])
                        == before[if j < at {
                        j
                    } else {
                        j + 1
                    }] by {}
                    assert(distinct_keys(after)) by {
                        assert forall|a: int, b: int| 0 <= a < b < after.len() implies (
                        #[trigger] after[a]).0@ != (#[trigger] after[b]).0@ by {
                            let a0 = if a < at { a } else { a + 1 };
                            let b0 = if b < at { b } else { b + 1 };
                            assert(before[a0].0@ != before[b0].0@);
                        }
                    }
                    assert forall|k: Seq<char>| has_key(after, k) == (k != key@ && has_key(
                        before,
                        k,
                    )) by {
                        if has_key(after, k) {
                            let j = slot(after, k);
                            let j0 = if j < at { j } else { j + 1 };
                            assert(before[j0].0@ == k);
                            if j0 < at {
                                assert(before[j0].0@ != before[at].0@);
                            } else {
                                assert(before[at].0@ != before[j0].0@);
                            }
                        }
                        if k != key@ && has_key(before, k) {
                            let j0 = slot(before, k);
                            let j = if j0 < at { j0 } else { j0 - 1 };
                            assert(after[j].0@ == k);
                        }
                    }
                    assert forall|k: Seq<char>| has_key(after, k) implies after[slot(after, k)].1
                        == before[slot(before, k)].1 by {
                        let j = slot(after, k);
                        let j0 = if j < at { j } else { j + 1 };
                        let s0 = slot(before, k);
                        assert(before[j0].0@ == k);
                        if j0 < s0 {
                            assert(before[j0].0@ != before[s0].0@);
                        } else if s0 < j0 {
                            assert(before[s0].0@ != before[j0].0@);
                        }
                    }
                }
                self.entries = entries;
                proof {
                    assert(self.map() =~= old(self).map().remove(key@));
                    assert(self.keys() =~= old(self).keys().remove(i as int));
                }
                Some(entry.1)
            },
            None => {
                proof {
                    assert(self.map() =~= old(self).map().remove(key@));
                }
                None
            },
        }
    }

    /// The keys in the order in which they came.
    pub fn key_list(&self) -> (keys: Vec<String>)
        ensures
            keys@.len() == self.keys().len(),
            forall|i: int| 0 <= i < keys@.len() ==> (#[trigger] keys@[i])@ == self.keys()[i],
            self.keys().no_duplicates(),
            forall|key: Seq<char>| self.map().contains_key(key) <==> self.keys().contains(key),
    {
        proof {
            use_type_invariant(self);
            lemma_keys_name_the_map(self.entries@);
        }
        let mut keys: Vec<String> = Vec::new();
        let mut i: usize = 0;
        while i < self.entries.len()
            invariant
                i <= self.entries.len(),
                keys@.len() == i,
                forall|j: int| 0 <= j < i ==> (#[trigger] keys@[j])@ == self.entries@[j].0@,
            decreases self.entries.len() - i,
        {
            keys.push(self.entries[i].0.clone());
            i += 1;
        }
        keys
    }
}

} // verus!
