//! A map from texts to values that remembers the order in which its keys came.

use vstd::hash_map::StringHashMap;
use vstd::prelude::*;

verus! {

/// A map with text keys that can be walked. Keys stand in the order of their first insertion, each
/// of them once, and are found through a hash map of their positions.
pub struct Table<V> {
    entries: Vec<(String, V)>,
    positions: StringHashMap<usize>,
}

spec fn keys_of<V>(entries: Seq<(String, V)>) -> Seq<Seq<char>> {
    entries.map_values(|entry: (String, V)| entry.0@)
}

/// Whether `keys` holds each key once, and `positions` says where.
spec fn indexed(keys: Seq<Seq<char>>, positions: Map<Seq<char>, usize>) -> bool {
    &&& keys.no_duplicates()
    &&& forall|key: Seq<char>| #[trigger] positions.contains_key(key) <==> keys.contains(key)
    &&& forall|i: int| 0 <= i < keys.len() ==> positions[#[trigger] keys[i]] == i
}

impl<V> View for Table<V> {
    type V = Map<Seq<char>, V>;

    closed spec fn view(&self) -> Map<Seq<char>, V> {
        Map::new(
            |key: Seq<char>| keys_of(self.entries@).contains(key),
            |key: Seq<char>| self.entries@[keys_of(self.entries@).index_of(key)].1,
        )
    }
}

impl<V> Table<V> {
    #[verifier::type_invariant]
    spec fn each_key_once(self) -> bool {
        indexed(keys_of(self.entries@), self.positions@)
    }

    /// The keys, in the order of their first insertion.
    pub closed spec fn keys(&self) -> Seq<Seq<char>> {
        keys_of(self.entries@)
    }

    /// Makes an empty table.
    pub fn new() -> (table: Self)
        ensures
            table@ == Map::<Seq<char>, V>::empty(),
            table.keys() == Seq::<Seq<char>>::empty(),
    {
        let table = Table { entries: Vec::new(), positions: StringHashMap::new() };
        proof {
            assert(table@ =~= Map::<Seq<char>, V>::empty());
        }
        table
    }

    /// The number of keys.
    pub fn len(&self) -> (count: usize)
        ensures
            count == self.keys().len(),
            self.keys().no_duplicates(),
            self.keys().to_set() == self@.dom(),
    {
        proof {
            use_type_invariant(self);
            assert(self.keys().to_set() =~= self@.dom());
        }
        self.entries.len()
    }

    /// Tells whether there is no key.
    pub fn is_empty(&self) -> (empty: bool)
        ensures
            empty == (self.keys().len() == 0),
            empty == (self@ == Map::<Seq<char>, V>::empty()),
    {
        proof {
            if self.keys().len() > 0 {
                assert(self.keys().contains(self.keys()[0]));
                assert(self@.dom().contains(self.keys()[0]));
            } else {
                assert(self@ =~= Map::<Seq<char>, V>::empty());
            }
        }
        self.entries.len() == 0
    }

    fn position(&self, key: &str) -> (found: Option<usize>)
        ensures
            match found {
                Some(i) => i < self.entries@.len() && self.entries@[i as int].0@ == key@,
                None => !self.keys().contains(key@),
            },
    {
        proof {
            use_type_invariant(self);
            if self.keys().contains(key@) {
                let i = self.keys().index_of(key@);
                assert(self.keys()[i] == key@);
            }
        }
        match self.positions.get(key) {
            Some(i) => Some(*i),
            None => None,
        }
    }

    /// The value that stands under `key`.
    pub fn get(&self, key: &str) -> (value: Option<&V>)
        ensures
            match value {
                Some(value) => self@.contains_key(key@) && *value == self@[key@],
                None => !self@.contains_key(key@),
            },
    {
        match self.position(key) {
            Some(i) => {
                proof {
                    use_type_invariant(self);
                    lemma_entry(self.entries@, i as int);
                }
                Some(&self.entries[i].1)
            },
            None => None,
        }
    }

    /// The key at a position of the order of first insertion.
    pub fn key_at(&self, position: usize) -> (key: &String)
        requires
            position < self.keys().len(),
        ensures
            key@ == self.keys()[position as int],
    {
        &self.entries[position].0
    }

    /// The value under the key at a position of the order of first insertion.
    pub fn value_at(&self, position: usize) -> (value: &V)
        requires
            position < self.keys().len(),
        ensures
            self@.contains_key(self.keys()[position as int]),
            *value == self@[self.keys()[position as int]],
    {
        proof {
            use_type_invariant(self);
            lemma_entry(self.entries@, position as int);
        }
        &self.entries[position].1
    }

    /// Puts `value` under `key`. A key that is new goes to the end of the order.
    pub fn insert(&mut self, key: String, value: V)
        ensures
            final(self)@ == old(self)@.insert(key@, value),
            final(self).keys() == (if old(self)@.contains_key(key@) {
                old(self).keys()
            } else {
                old(self).keys().push(key@)
            }),
    {
        proof {
            use_type_invariant(&*self);
        }
        let found = self.position(key.as_str());
        let mut whole = Table::new();
        std::mem::swap(&mut whole, self);
        let Table { mut entries, mut positions } = whole;
        let ghost before = entries@;
        match found {
            Some(i) => {
                proof {
                    lemma_entry(before, i as int);
                }
                entries.set(i, (key, value));
                proof {
                    assert(keys_of(entries@) =~= keys_of(before));
                    assert forall|k: Seq<char>| #[trigger] keys_of(before).contains(k) implies (
                    entries@[keys_of(before).index_of(k)].1 == (if k == key@ {
                        value
                    } else {
                        before[keys_of(before).index_of(k)].1
                    })) by {
                        let j = keys_of(before).index_of(k);
                        assert(keys_of(before)[j] == k);
                        assert(keys_of(before)[i as int] == key@);
                    }
                }
            },
            None => {
                let position = entries.len();
                positions.insert(key.clone(), position);
                entries.push((key, value));
                proof {
                    lemma_push(before, key, value);
                }
            },
        }
        *self = Table { entries, positions };
        proof {
            assert(self@ =~= old(self)@.insert(key@, value));
        }
    }

    /// Takes away what stands under `key`, and hands it out.
    pub fn remove(&mut self, key: &str) -> (value: Option<V>)
        ensures
            final(self)@ == old(self)@.remove(key@),
            final(self).keys() == old(self).keys().remove_value(key@),
            match value {
                Some(value) => old(self)@.contains_key(key@) && value == old(self)@[key@],
                None => !old(self)@.contains_key(key@),
            },
    {
        proof {
            use_type_invariant(&*self);
        }
        match self.position(key) {
            Some(i) => {
                let mut whole = Table::new();
                std::mem::swap(&mut whole, self);
                let Table { mut entries, mut positions } = whole;
                let ghost before = entries@;
                let (_, value) = entries.remove(i);
                positions.remove(key);
                proof {
                    lemma_remove(before, i as int);
                    lemma_entry(before, i as int);
                    assert forall|j: int| 0 <= j < i implies positions@[#[trigger] keys_of(
                        entries@,
                    )[j]] == j by {
                        assert(keys_of(entries@)[j] == keys_of(before)[j]);
                        assert(keys_of(before)[i as int] == key@);
                    }
                }
                let mut j: usize = i;
                while j < entries.len()
                    invariant
                        j <= entries@.len(),
                        keys_of(entries@).no_duplicates(),
                        forall|k: Seq<char>| #[trigger]
                            positions@.contains_key(k) <==> keys_of(entries@).contains(k),
                        forall|m: int|
                            0 <= m < j ==> positions@[#[trigger] keys_of(entries@)[m]] == m,
                    decreases entries@.len() - j,
                {
                    proof {
                        assert(keys_of(entries@)[j as int] == entries@[j as int].0@);
                        assert(keys_of(entries@).contains(entries@[j as int].0@));
                    }
                    positions.insert(entries[j].0.clone(), j);
                    j = j + 1;
                }
                *self = Table { entries, positions };
                proof {
                    assert(self@ =~= old(self)@.remove(key@));
                }
                Some(value)
            },
            None => {
                proof {
                    assert(self@ =~= old(self)@.remove(key@));
                    assert(old(self).keys().index_of_first(key@) is None) by {
                        old(self).keys().index_of_first_ensures(key@);
                    }
                }
                None
            },
        }
    }
}

impl<V: Clone> Clone for Table<V> {
    fn clone(&self) -> (copy: Self)
        ensures
            copy.keys() == self.keys(),
            copy@.dom() == self@.dom(),
            forall|key: Seq<char>| #[trigger]
                copy@.contains_key(key) ==> cloned(self@[key], copy@[key]),
    {
        proof {
            use_type_invariant(self);
        }
        let mut entries: Vec<(String, V)> = Vec::new();
        let mut positions: StringHashMap<usize> = StringHashMap::new();
        let mut i: usize = 0;
        while i < self.entries.len()
            invariant
                i <= self.entries@.len(),
                entries@.len() == i,
                keys_of(self.entries@).no_duplicates(),
                indexed(keys_of(entries@), positions@),
                forall|j: int|
                    0 <= j < i ==> (#[trigger] entries@[j]).0@ == self.entries@[j].0@ && cloned(
                        self.entries@[j].1,
                        entries@[j].1,
                    ),
            decreases self.entries@.len() - i,
        {
            let key = self.entries[i].0.clone();
            let value = self.entries[i].1.clone();
            proof {
                let done = keys_of(entries@);
                if done.contains(key@) {
                    let j = done.index_of(key@);
                    assert(done[j] == key@);
                    assert(keys_of(self.entries@)[j] == self.entries@[j].0@);
                    assert(keys_of(self.entries@)[i as int] == key@);
                }
                lemma_push(entries@, key, value);
            }
            positions.insert(key.clone(), i);
            entries.push((key, value));
            i = i + 1;
        }
        proof {
            assert(keys_of(entries@) =~= keys_of(self.entries@));
        }
        let copy = Table { entries, positions };
        proof {
            assert(copy@.dom() =~= self@.dom());
            assert forall|key: Seq<char>| #[trigger] copy@.contains_key(key) implies cloned(
                self@[key],
                copy@[key],
            ) by {
                let j = copy.keys().index_of(key);
                assert(copy.keys()[j] == key);
                assert(copy.entries@[j].0@ == self.entries@[j].0@);
            }
        }
        copy
    }
}

proof fn lemma_entry<V>(entries: Seq<(String, V)>, i: int)
    requires
        keys_of(entries).no_duplicates(),
        0 <= i < entries.len(),
    ensures
        keys_of(entries).contains(entries[i].0@),
        keys_of(entries).index_of(entries[i].0@) == i,
{
    let keys = keys_of(entries);
    assert(keys[i] == entries[i].0@);
    let j = keys.index_of(keys[i]);
    assert(keys[j] == keys[i]);
}

proof fn lemma_push<V>(entries: Seq<(String, V)>, key: String, value: V)
    requires
        keys_of(entries).no_duplicates(),
        !keys_of(entries).contains(key@),
    ensures
        keys_of(entries.push((key, value))) == keys_of(entries).push(key@),
        keys_of(entries.push((key, value))).no_duplicates(),
        forall|k: Seq<char>| #[trigger]
            keys_of(entries.push((key, value))).contains(k) <==> k == key@ || keys_of(
                entries,
            ).contains(k),
        keys_of(entries.push((key, value))).index_of(key@) == entries.len(),
        forall|k: Seq<char>| #[trigger]
            keys_of(entries).contains(k) ==> keys_of(entries.push((key, value))).index_of(k)
                == keys_of(entries).index_of(k) && 0 <= keys_of(entries).index_of(k)
                < entries.len(),
{
    let after = entries.push((key, value));
    let old_keys = keys_of(entries);
    let keys = keys_of(after);
    assert(keys =~= old_keys.push(key@));
    assert(keys.no_duplicates());
    lemma_entry(after, entries.len() as int);
    assert forall|k: Seq<char>| #[trigger]
        keys.contains(k) <==> k == key@ || old_keys.contains(k) by {
        if old_keys.contains(k) {
            let j = old_keys.index_of(k);
            assert(keys[j] == k);
        }
        if k == key@ {
            assert(keys[entries.len() as int] == k);
        }
    }
    assert forall|k: Seq<char>| #[trigger] old_keys.contains(k) implies keys.index_of(k)
        == old_keys.index_of(k) && 0 <= old_keys.index_of(k) < entries.len() by {
        let j = old_keys.index_of(k);
        assert(old_keys[j] == k);
        assert(keys[j] == k);
        lemma_entry(after, j);
    }
}

proof fn lemma_remove<V>(entries: Seq<(String, V)>, i: int)
    requires
        keys_of(entries).no_duplicates(),
        0 <= i < entries.len(),
    ensures
        keys_of(entries.remove(i)) == keys_of(entries).remove_value(entries[i].0@),
        keys_of(entries.remove(i)).no_duplicates(),
        forall|k: Seq<char>| #[trigger]
            keys_of(entries.remove(i)).contains(k) <==> k != entries[i].0@ && keys_of(
                entries,
            ).contains(k),
        forall|k: Seq<char>| #[trigger]
            keys_of(entries.remove(i)).contains(k) ==> entries.remove(i)[keys_of(
                entries.remove(i),
            ).index_of(k)] == entries[keys_of(entries).index_of(k)],
{
    let after = entries.remove(i);
    let old_keys = keys_of(entries);
    let keys = keys_of(after);
    let key = entries[i].0@;
    assert(old_keys[i] == key);
    assert(old_keys.contains(key));
    old_keys.index_of_first_ensures(key);
    assert(old_keys.index_of_first(key) == Some(i));
    assert(keys =~= old_keys.remove(i));
    assert(keys.no_duplicates());
    assert forall|k: Seq<char>| #[trigger]
        keys.contains(k) <==> k != key && old_keys.contains(k) by {
        if keys.contains(k) {
            let j = keys.index_of(k);
            assert(keys[j] == k);
            let j0 = if j < i { j } else { j + 1 };
            assert(old_keys[j0] == k);
        }
        if k != key && old_keys.contains(k) {
            let j0 = old_keys.index_of(k);
            let j = if j0 < i { j0 } else { j0 - 1 };
            assert(keys[j] == k);
        }
    }
    assert forall|k: Seq<char>| #[trigger] keys.contains(k) implies after[keys.index_of(k)]
        == entries[old_keys.index_of(k)] by {
        let j = keys.index_of(k);
        assert(keys[j] == k);
        let j0 = if j < i { j } else { j + 1 };
        assert(old_keys[j0] == k);
        lemma_entry(entries, j0);
    }
}

} // verus!
