//! A map from text to values.

use vstd::prelude::*;

use crate::text::{same_text, texts};

verus! {

/// A map from text keys to values. No key occurs twice.
#[derive(Debug)]
pub struct Table<V> {
    entries: Vec<(String, V)>,
}

/// No two entries have the same key.
spec fn distinct_keys<V>(entries: Seq<(String, V)>) -> bool {
    forall|i: int, j: int|
        0 <= i < j < entries.len() ==> (#[trigger] entries[i]).0@ != (#[trigger] entries[j]).0@
}

/// Some entry has the key `key`.
spec fn has_key<V>(entries: Seq<(String, V)>, key: Seq<char>) -> bool {
    exists|i: int| 0 <= i < entries.len() && (#[trigger] entries[i]).0@ == key
}

/// The index of an entry with the key `key`.
spec fn key_index<V>(entries: Seq<(String, V)>, key: Seq<char>) -> int {
    choose|i: int| 0 <= i < entries.len() && (#[trigger] entries[i]).0@ == key
}

/// The map that a list of entries stands for.
spec fn entries_map<V>(entries: Seq<(String, V)>) -> Map<Seq<char>, V> {
    Map::new(
        |key: Seq<char>| has_key(entries, key),
        |key: Seq<char>| entries[key_index(entries, key)].1,
    )
}

/// An entry is found in the map under its own key.
proof fn lemma_entry_in_map<V>(entries: Seq<(String, V)>, i: int)
    requires
        distinct_keys(entries),
        0 <= i < entries.len(),
    ensures
        entries_map(entries).contains_key(entries[i].0@),
        entries_map(entries)[entries[i].0@] == entries[i].1,
{
    let key = entries[i].0@;
    assert(has_key(entries, key));
    let k = key_index(entries, key);
    assert(0 <= k < entries.len() && entries[k].0@ == key);
    assert(k == i);
}

/// `keys` holds each key of `map` once, and nothing else.
pub open spec fn lists_keys<V>(keys: Seq<Seq<char>>, map: Map<Seq<char>, V>) -> bool {
    &&& keys.no_duplicates()
    &&& forall|key: Seq<char>| #[trigger] keys.contains(key) <==> map.contains_key(key)
}

impl<V> View for Table<V> {
    type V = Map<Seq<char>, V>;

    closed spec fn view(&self) -> Map<Seq<char>, V> {
        entries_map(self.entries@)
    }
}

impl<V> Table<V> {
    #[verifier::type_invariant]
    spec fn inv(self) -> bool {
        distinct_keys(self.entries@)
    }

    /// The keys, in the order in which they are walked.
    pub closed spec fn key_seq(&self) -> Seq<Seq<char>> {
        self.entries@.map_values(|entry: (String, V)| entry.0@)
    }

    /// The empty table.
    pub fn new() -> (table: Self)
        ensures
            table@ == Map::<Seq<char>, V>::empty(),
    {
        let table = Table { entries: Vec::new() };
        assert(table@ =~= Map::<Seq<char>, V>::empty());
        table
    }

    /// The index of the entry with the key `key`, if there is one.
    fn find(&self, key: &str) -> (found: Option<usize>)
        ensures
            match found {
                Some(i) => i < self.entries@.len() && self.entries@[i as int].0@ == key@,
                None => !has_key(self.entries@, key@),
            },
    {
        let mut i: usize = 0;
        while i < self.entries.len()
            invariant
                i <= self.entries@.len(),
                forall|j: int| 0 <= j < i ==> (#[trigger] self.entries@[j]).0@ != key@,
            decreases self.entries@.len() - i,
        {
            if same_text(self.entries[i].0.as_str(), key) {
                return Some(i);
            }
            i = i + 1;
        }
        None
    }

    /// How many keys there are. Each key of the map is listed once, and nothing else is.
    pub fn len(&self) -> (n: usize)
        ensures
            n == self.key_seq().len(),
            lists_keys(self.key_seq(), self@),
    {
        proof {
            use_type_invariant(self);
            let keys = self.key_seq();
            assert forall|key: Seq<char>| keys.contains(key) implies self@.contains_key(key) by {
                let i = choose|i: int| 0 <= i < keys.len() && keys[i] == key;
                assert(self.entries@[i].0@ == key);
            }
            assert forall|key: Seq<char>| self@.contains_key(key) implies keys.contains(key) by {
                let i = key_index(self.entries@, key);
                assert(keys[i] == key);
            }
        }
        self.entries.len()
    }

    /// A copy of the keys.
    pub fn keys(&self) -> (keys: Vec<String>)
        ensures
            texts(keys@) == self.key_seq(),
            lists_keys(self.key_seq(), self@),
    {
        let n: usize = self.len();
        let mut keys: Vec<String> = Vec::new();
        let mut i: usize = 0;
        while i < n
            invariant
                i <= n,
                n == self.key_seq().len(),
                keys@.len() == i,
                forall|j: int| 0 <= j < i ==> (#[trigger] keys@[j])@ == self.key_seq()[j],
            decreases n - i,
        {
            keys.push(self.key_at(i).clone());
            i = i + 1;
        }
        assert(texts(keys@) =~= self.key_seq());
        keys
    }

    /// The key at index `i`.
    pub fn key_at(&self, i: usize) -> (key: &String)
        requires
            i < self.key_seq().len(),
        ensures
            key@ == self.key_seq()[i as int],
            self@.contains_key(key@),
    {
        proof {
            use_type_invariant(self);
            lemma_entry_in_map(self.entries@, i as int);
        }
        &self.entries[i].0
    }

    /// The value under the key at index `i`.
    pub fn value_at(&self, i: usize) -> (value: &V)
        requires
            i < self.key_seq().len(),
        ensures
            self@.contains_key(self.key_seq()[i as int]),
            *value == self@[self.key_seq()[i as int]],
    {
        proof {
            use_type_invariant(self);
            lemma_entry_in_map(self.entries@, i as int);
        }
        &self.entries[i].1
    }

    /// Puts `value` under `key`, in place of what was there.
    pub fn insert(&mut self, key: String, value: V)
        ensures
            final(self)@ == old(self)@.insert(key@, value),
    {
        proof {
            use_type_invariant(&*self);
        }
        let found: Option<usize> = self.find(key.as_str());
        let mut entries: Vec<(String, V)> = Vec::new();
        std::mem::swap(&mut entries, &mut self.entries);
        let ghost before = entries@;
        match found {
            Some(i) => {
                entries.set(i, (key, value));
                assert(has_key(before, key@));
            },
            None => {
                entries.push((key, value));
            },
        }
        proof {
            let after = entries@;
            let at: int = if found is Some { found->0 as int } else { before.len() as int };
            assert(distinct_keys(after));
            lemma_entry_in_map(after, at);
            assert forall|other: Seq<char>| other != key@ implies has_key(after, other)
                == has_key(before, other) && (has_key(before, other) ==> entries_map(after)[other]
                == entries_map(before)[other]) by {
                if has_key(before, other) {
                    let i = key_index(before, other);
                    assert(after[i] == before[i]);
                    lemma_entry_in_map(before, i);
                    lemma_entry_in_map(after, i);
                }
                if has_key(after, other) {
                    let i = key_index(after, other);
                    assert(i != at);
                    assert(after[i] == before[i]);
                }
            }
            assert(entries_map(after) =~= entries_map(before).insert(key@, value));
        }
        self.entries = entries;
    }

    /// The value under `key`, if there is one.
    pub fn get(&self, key: &str) -> (value: Option<&V>)
        ensures
            match value {
                Some(v) => self@.contains_key(key@) && *v == self@[key@],
                None => !self@.contains_key(key@),
            },
    {
        proof {
            use_type_invariant(self);
        }
        match self.find(key) {
            Some(i) => {
                proof {
                    lemma_entry_in_map(self.entries@, i as int);
                }
                Some(&self.entries[i].1)
            },
            None => None,
        }
    }

    /// Takes `key` out, with the value that was under it, if there was one.
    pub fn remove(&mut self, key: &str) -> (value: Option<V>)
        ensures
            final(self)@ == old(self)@.remove(key@),
            match value {
                Some(v) => old(self)@.contains_key(key@) && v == old(self)@[key@],
                None => !old(self)@.contains_key(key@) && final(self)@ == old(self)@,
            },
    {
        proof {
            use_type_invariant(&*self);
        }
        match self.find(key) {
            Some(at) => {
                let mut entries: Vec<(String, V)> = Vec::new();
                std::mem::swap(&mut entries, &mut self.entries);
                let ghost before = entries@;
                let entry: (String, V) = entries.remove(at);
                proof {
                    let after = entries@;
                    lemma_entry_in_map(before, at as int);
                    assert forall|i: int| 0 <= i < after.len() implies #[trigger] after[i]
                        == before[if i < at { i } else { i + 1 }] by {}
                    assert(distinct_keys(after));
                    assert forall|other: Seq<char>| #![trigger has_key(after, other)]
                        has_key(after, other) == (other != key@ && has_key(before, other)) by {
                        if has_key(after, other) {
                            let i = key_index(after, other);
                            assert(after[i].0@ == other);
                            let j: int = if i < at { i } else { i + 1 };
                            assert(before[j].0@ == other);
                        }
                        if other != key@ && has_key(before, other) {
                            let i = key_index(before, other);
                            assert(before[i].0@ == other);
                            let j: int = if i < at { i } else { i - 1 };
                            assert(after[j] == before[i]);
                        }
                    }
                    assert forall|other: Seq<char>| has_key(after, other) implies
                        #[trigger] entries_map(after)[other] == entries_map(before)[other] by {
                        let i = key_index(after, other);
                        let j: int = if i < at { i } else { i + 1 };
                        assert(after[i] == before[j]);
                        lemma_entry_in_map(after, i);
                        lemma_entry_in_map(before, j);
                    }
                    assert(entries_map(after) =~= entries_map(before).remove(key@));
                }
                self.entries = entries;
                Some(entry.1)
            },
            None => {
                assert(self@ =~= self@.remove(key@));
                None
            },
        }
    }
}

} // verus!
