//! A small map from text keys to values, kept as a list of entries in the
//! order in which the keys first arrived. It stands where a hash map keyed
//! by strings would: every key occurs once, and a lookup sees the value
//! that was inserted last under that key.

use vstd::prelude::*;
use crate::text::str_eq;

verus! {

/// The keys of a list of entries, in the same order.
pub open spec fn entry_keys<V>(entries: Seq<(Seq<char>, V)>) -> Seq<Seq<char>> {
    entries.map_values(|e: (Seq<char>, V)| e.0)
}

/// The map that a list of entries with pairwise different keys stands for.
pub open spec fn entries_map<V>(entries: Seq<(Seq<char>, V)>) -> Map<Seq<char>, V> {
    Map::new(
        |k: Seq<char>| entry_keys(entries).contains(k),
        |k: Seq<char>| entries[entry_keys(entries).index_of(k)].1,
    )
}

/// In a list with pairwise different keys, the entry at `i` is the one that
/// the map holds under that entry's key.
pub proof fn lemma_entry_in_map<V>(entries: Seq<(Seq<char>, V)>, i: int)
    requires
        entry_keys(entries).no_duplicates(),
        0 <= i < entries.len(),
    ensures
        entries_map(entries).contains_key(entries[i].0),
        entries_map(entries)[entries[i].0] == entries[i].1,
{
    let keys = entry_keys(entries);
    assert(keys[i] == entries[i].0);
    assert(keys.contains(entries[i].0));
    let j = keys.index_of(entries[i].0);
    assert(0 <= j < keys.len() && keys[j] == entries[i].0);
    assert(j == i);
}

/// A key that no entry carries is not in the map.
pub proof fn lemma_absent_key<V>(entries: Seq<(Seq<char>, V)>, key: Seq<char>)
    requires
        forall|i: int| 0 <= i < entries.len() ==> (#[trigger] entries[i]).0 != key,
    ensures
        !entries_map(entries).contains_key(key),
{
    let keys = entry_keys(entries);
    if keys.contains(key) {
        let j = choose|j: int| 0 <= j < keys.len() && keys[j] == key;
        assert(entries[j].0 == key);
    }
}

/// A key is in the map exactly when some entry carries it.
pub proof fn lemma_key_in_map<V>(entries: Seq<(Seq<char>, V)>, key: Seq<char>)
    ensures
        entries_map(entries).contains_key(key) <==> entry_keys(entries).contains(key),
{
}

/// Appending an entry under a new key inserts it into the map.
pub proof fn lemma_push_inserts<V>(entries: Seq<(Seq<char>, V)>, key: Seq<char>, value: V)
    requires
        entry_keys(entries).no_duplicates(),
        !entry_keys(entries).contains(key),
    ensures
        entry_keys(entries.push((key, value))).no_duplicates(),
        entries_map(entries.push((key, value))) == entries_map(entries).insert(key, value),
{
    let grown = entries.push((key, value));
    let keys = entry_keys(entries);
    let grown_keys = entry_keys(grown);
    assert(grown_keys =~= keys.push(key));
    assert(grown_keys.no_duplicates()) by {
        assert forall|i: int, j: int|
            0 <= i < grown_keys.len() && 0 <= j < grown_keys.len() && i != j implies grown_keys[i]
            != grown_keys[j] by {
            if i < keys.len() {
                assert(keys.contains(grown_keys[i]));
            }
            if j < keys.len() {
                assert(keys.contains(grown_keys[j]));
            }
        }
    }
    let left = entries_map(grown);
    let right = entries_map(entries).insert(key, value);
    assert forall|k: Seq<char>| left.contains_key(k) <==> right.contains_key(k) by {
        if left.contains_key(k) {
            let j = choose|j: int| 0 <= j < grown_keys.len() && grown_keys[j] == k;
            if j < keys.len() {
                assert(keys[j] == k);
            }
        }
        if right.contains_key(k) {
            if k != key {
                let j = choose|j: int| 0 <= j < keys.len() && keys[j] == k;
                assert(grown_keys[j] == k);
            } else {
                assert(grown_keys[keys.len() as int] == k);
            }
        }
    }
    assert forall|k: Seq<char>| left.contains_key(k) implies left[k] == right[k] by {
        let j = choose|j: int| 0 <= j < grown_keys.len() && grown_keys[j] == k;
        assert(grown[j].0 == k);
        lemma_entry_in_map(grown, j);
        if j < keys.len() {
            assert(entries[j].0 == k);
            lemma_entry_in_map(entries, j);
        }
    }
    assert(left =~= right);
}

/// Replacing the value of the entry at `i` inserts the new value under that
/// entry's key and leaves the keys as they were.
pub proof fn lemma_update_inserts<V>(entries: Seq<(Seq<char>, V)>, i: int, value: V)
    requires
        entry_keys(entries).no_duplicates(),
        0 <= i < entries.len(),
    ensures
        entry_keys(entries.update(i, (entries[i].0, value))) == entry_keys(entries),
        entries_map(entries.update(i, (entries[i].0, value))) == entries_map(entries).insert(
            entries[i].0,
            value,
        ),
{
    let key = entries[i].0;
    let changed = entries.update(i, (key, value));
    assert(entry_keys(changed) =~= entry_keys(entries));
    let keys = entry_keys(entries);
    let left = entries_map(changed);
    let right = entries_map(entries).insert(key, value);
    assert(keys[i] == key);
    assert forall|k: Seq<char>| left.contains_key(k) <==> right.contains_key(k) by {}
    assert forall|k: Seq<char>| left.contains_key(k) implies left[k] == right[k] by {
        let j = choose|j: int| 0 <= j < keys.len() && keys[j] == k;
        assert(changed[j].0 == k);
        lemma_entry_in_map(changed, j);
        lemma_entry_in_map(entries, j);
    }
    assert(left =~= right);
}

/// A map from text keys to values of type `V`.
#[derive(Debug)]
pub struct StringMap<V> {
    entries: Vec<(String, V)>,
}

impl<V> StringMap<V> {
    /// The entries in the order in which their keys were first inserted,
    /// each key by its characters.
    pub closed spec fn entries(&self) -> Seq<(Seq<char>, V)> {
        self.entries@.map_values(|e: (String, V)| (e.0@, e.1))
    }

    #[verifier::type_invariant]
    spec fn keys_differ(&self) -> bool {
        entry_keys(self.entries()).no_duplicates()
    }

    /// The map itself: which keys are present and what each one holds.
    pub open spec fn view(&self) -> Map<Seq<char>, V> {
        entries_map(self.entries())
    }

    /// A map without entries.
    pub fn new() -> (map: Self)
        ensures
            map.entries() == Seq::<(Seq<char>, V)>::empty(),
            map@ == Map::<Seq<char>, V>::empty(),
    {
        let map = StringMap { entries: Vec::new() };
        assert(map.entries() =~= Seq::empty());
        assert(entry_keys(map.entries()) =~= Seq::empty());
        assert(map@ =~= Map::empty());
        map
    }

    /// The number of entries, which is the number of keys.
    pub fn len(&self) -> (n: usize)
        ensures
            n == self.entries().len(),
            entry_keys(self.entries()).no_duplicates(),
    {
        proof {
            use_type_invariant(self);
        }
        self.entries.len()
    }

    /// The key of the entry at position `i`.
    pub fn key_at(&self, i: usize) -> (key: &String)
        requires
            i < self.entries().len(),
        ensures
            key@ == self.entries()[i as int].0,
    {
        &self.entries[i].0
    }

    /// The value of the entry at position `i`.
    pub fn value_at(&self, i: usize) -> (value: &V)
        requires
            i < self.entries().len(),
        ensures
            *value == self.entries()[i as int].1,
    {
        &self.entries[i].1
    }

    /// The position of the entry under `key`, if there is one.
    pub fn position(&self, key: &str) -> (found: Option<usize>)
        ensures
            entry_keys(self.entries()).no_duplicates(),
            match found {
                Some(i) => i < self.entries().len() && self.entries()[i as int].0 == key@,
                None => !entry_keys(self.entries()).contains(key@),
            },
            found is Some <==> self@.contains_key(key@),
    {
        proof {
            use_type_invariant(self);
        }
        let mut i: usize = 0;
        while i < self.entries.len()
            invariant
                i <= self.entries.len(),
                entry_keys(self.entries()).no_duplicates(),
                forall|j: int| 0 <= j < i ==> (#[trigger] self.entries()[j]).0 != key@,
            decreases self.entries.len() - i,
        {
            if str_eq(self.entries[i].0.as_str(), key) {
                proof {
                    lemma_entry_in_map(self.entries(), i as int);
                }
                return Some(i);
            }
            i = i + 1;
        }
        proof {
            lemma_absent_key(self.entries(), key@);
        }
        None
    }

    /// The value under `key`, if the key is present.
    pub fn get(&self, key: &str) -> (found: Option<&V>)
        ensures
            match found {
                Some(value) => self@.contains_key(key@) && self@[key@] == *value,
                None => !self@.contains_key(key@),
            },
    {
        match self.position(key) {
            Some(i) => {
                proof {
                    lemma_entry_in_map(self.entries(), i as int);
                }
                Some(&self.entries[i].1)
            },
            None => None,
        }
    }

    /// Whether `key` is present.
    pub fn contains_key(&self, key: &str) -> (present: bool)
        ensures
            present == self@.contains_key(key@),
    {
        self.position(key).is_some()
    }

    /// Puts `value` under `key`. A key that is already present keeps its
    /// place and gets the new value; a new key goes to the end.
    pub fn insert(&mut self, key: String, value: V)
        ensures
            final(self)@ == old(self)@.insert(key@, value),
            old(self)@.contains_key(key@) ==> exists|i: int|
                0 <= i < old(self).entries().len() && (#[trigger] old(self).entries()[i]).0 == key@
                    && final(self).entries() == old(self).entries().update(i, (key@, value)),
            !old(self)@.contains_key(key@) ==> final(self).entries() == old(self).entries().push(
                (key@, value),
            ),
    {
        let found = self.position(&key);
        let ghost before = self.entries();
        let mut entries: Vec<(String, V)> = Vec::new();
        assert(entry_keys(Seq::<(Seq<char>, V)>::empty()) =~= Seq::empty());
        std::mem::swap(&mut self.entries, &mut entries);
        assert(entries@.map_values(|e: (String, V)| (e.0@, e.1)) == before);
        match found {
            Some(i) => {
                entries[i] = (key, value);
                proof {
                    lemma_update_inserts(before, i as int, value);
                    assert(entries@.map_values(|e: (String, V)| (e.0@, e.1)) =~= before.update(
                        i as int,
                        (key@, value),
                    ));
                }
            },
            None => {
                entries.push((key, value));
                proof {
                    lemma_push_inserts(before, key@, value);
                    assert(entries@.map_values(|e: (String, V)| (e.0@, e.1)) =~= before.push(
                        (key@, value),
                    ));
                }
            },
        }
        self.entries = entries;
    }
}

} // verus!
