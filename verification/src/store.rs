//! The keyed aggregate store: a map from text keys to values that remembers
//! the order in which its keys were first written.

use vstd::prelude::*;

verus! {

/// The map that pairs each key with the value at the same place.
pub open spec fn paired<T>(keys: Seq<Seq<char>>, values: Seq<T>) -> Map<Seq<char>, T>
    decreases keys.len(),
{
    if keys.len() == 0 {
        Map::empty()
    } else {
        paired(keys.drop_last(), values.drop_last()).insert(keys.last(), values.last())
    }
}

/// Whether no key occurs twice.
pub open spec fn distinct(keys: Seq<Seq<char>>) -> bool {
    forall|i: int, j: int| 0 <= i < j < keys.len() ==> keys[i] != keys[j]
}

/// A key is in the map exactly if it is among the keys.
pub proof fn lemma_paired_domain<T>(keys: Seq<Seq<char>>, values: Seq<T>, key: Seq<char>)
    requires
        keys.len() == values.len(),
    ensures
        paired(keys, values).contains_key(key) <==> exists|i: int|
            0 <= i < keys.len() && keys[i] == key,
    decreases keys.len(),
{
    if keys.len() > 0 {
        lemma_paired_domain(keys.drop_last(), values.drop_last(), key);
        if paired(keys, values).contains_key(key) {
            if keys.last() == key {
                assert(keys[keys.len() - 1] == key);
            } else {
                let i = choose|i: int| 0 <= i < keys.len() - 1 && keys.drop_last()[i] == key;
                assert(keys[i] == key);
            }
        }
        if exists|i: int| 0 <= i < keys.len() && keys[i] == key {
            let i = choose|i: int| 0 <= i < keys.len() && keys[i] == key;
            if i < keys.len() - 1 {
                assert(keys.drop_last()[i] == key);
            }
        }
    }
}

/// Where no key occurs twice, each key leads to the value at its place.
pub proof fn lemma_paired_value<T>(keys: Seq<Seq<char>>, values: Seq<T>, at: int)
    requires
        keys.len() == values.len(),
        distinct(keys),
        0 <= at < keys.len(),
    ensures
        paired(keys, values).contains_key(keys[at]),
        paired(keys, values)[keys[at]] == values[at],
    decreases keys.len(),
{
    if at < keys.len() - 1 {
        lemma_paired_value(keys.drop_last(), values.drop_last(), at);
    }
}

/// Where no key occurs twice, replacing the value at a place replaces what
/// its key leads to and nothing else.
pub proof fn lemma_paired_update<T>(keys: Seq<Seq<char>>, values: Seq<T>, at: int, value: T)
    requires
        keys.len() == values.len(),
        distinct(keys),
        0 <= at < keys.len(),
    ensures
        paired(keys, values.update(at, value)) == paired(keys, values).insert(keys[at], value),
    decreases keys.len(),
{
    let last = keys.len() - 1;
    if at < last {
        lemma_paired_update(keys.drop_last(), values.drop_last(), at, value);
        assert(values.update(at, value).drop_last() =~= values.drop_last().update(at, value));
        assert(paired(keys, values.update(at, value)) =~= paired(keys, values).insert(
            keys[at],
            value,
        ));
    } else {
        assert(values.update(at, value).drop_last() =~= values.drop_last());
        assert(paired(keys, values.update(at, value)) =~= paired(keys, values).insert(
            keys[at],
            value,
        ));
    }
}

/// A key with its value.
#[derive(Clone, Debug)]
pub struct Entry<V> {
    pub key: String,
    pub value: V,
}

/// A keyed store. No key is held twice; the entries stand in the order in
/// which their keys were first written.
#[derive(Debug)]
pub struct KeyedStore<V> {
    entries: Vec<Entry<V>>,
}

impl<V> KeyedStore<V> {
    /// The keys, in the order in which they were first written.
    pub closed spec fn keys(self) -> Seq<Seq<char>> {
        Seq::new(self.entries@.len(), |i: int| self.entries@[i].key@)
    }

    #[verifier::type_invariant]
    spec fn keys_distinct(self) -> bool {
        distinct(self.keys())
    }
}

impl<V: View> KeyedStore<V> {
    /// The values, each at the place of its key.
    pub closed spec fn values(self) -> Seq<V::V> {
        Seq::new(self.entries@.len(), |i: int| self.entries@[i].value@)
    }

    /// What the store holds for `key`: its value, or nothing.
    pub open spec fn lookup(self, key: Seq<char>) -> Option<V::V> {
        if self@.contains_key(key) {
            Some(self@[key])
        } else {
            None
        }
    }

    /// A store without entries.
    pub fn new() -> (store: Self)
        ensures
            store@ == Map::<Seq<char>, V::V>::empty(),
            store.keys() == Seq::<Seq<char>>::empty(),
    {
        let store = KeyedStore { entries: Vec::new() };
        assert(store.keys() =~= Seq::empty());
        assert(store.values() =~= Seq::empty());
        store
    }

    /// Number of keys held.
    pub fn len(&self) -> (count: usize)
        ensures
            count == self.keys().len(),
            count == self.values().len(),
    {
        self.entries.len()
    }

    /// The entry at place `at` of the order of first writing.
    pub fn entry(&self, at: usize) -> (entry: &Entry<V>)
        requires
            at < self.keys().len(),
        ensures
            entry.key@ == self.keys()[at as int],
            entry.value@ == self.values()[at as int],
            self@.contains_key(entry.key@),
            self@[entry.key@] == entry.value@,
    {
        proof {
            use_type_invariant(self);
            lemma_paired_value(self.keys(), self.values(), at as int);
        }
        &self.entries[at]
    }

    /// Place of `key` among the entries, or the number of entries where it is
    /// not held.
    fn position(&self, key: &String) -> (at: usize)
        ensures
            at <= self.keys().len(),
            at < self.keys().len() ==> self.keys()[at as int] == key@,
            at == self.keys().len() ==> !self@.contains_key(key@),
    {
        let mut i: usize = 0;
        while i < self.entries.len()
            invariant
                i <= self.entries.len(),
                forall|j: int| 0 <= j < i ==> self.keys()[j] != key@,
            decreases self.entries.len() - i,
        {
            if self.entries[i].key == *key {
                return i;
            }
            i = i + 1;
        }
        proof {
            lemma_paired_domain(self.keys(), self.values(), key@);
        }
        i
    }

    /// Looks a key up: used as an existence gate by the stages downstream.
    pub fn get_latest(&self, key: &String) -> (value: Option<&V>)
        ensures
            match value {
                Some(v) => self.lookup(key@) == Some(v@),
                None => self.lookup(key@) is None,
            },
    {
        let at = self.position(key);
        if at < self.entries.len() {
            proof {
                use_type_invariant(self);
                lemma_paired_value(self.keys(), self.values(), at as int);
            }
            Some(&self.entries[at].value)
        } else {
            None
        }
    }

    /// Writes a value under a key, over whatever the key held before.
    pub fn set_latest(&mut self, key: String, value: V)
        ensures
            final(self)@ == old(self)@.insert(key@, value@),
            final(self).keys() == if old(self)@.contains_key(key@) {
                old(self).keys()
            } else {
                old(self).keys().push(key@)
            },
    {
        proof {
            use_type_invariant(&*self);
        }
        let at = self.position(&key);
        let ghost keys = self.keys();
        let ghost values = self.values();
        proof {
            lemma_paired_domain(keys, values, key@);
        }
        // The entries are taken out while they change and put back when they
        // are whole again, so that the store holds distinct keys at every step.
        if at < self.entries.len() {
            proof {
                lemma_paired_update(keys, values, at as int, value@);
            }
            let mut entries: Vec<Entry<V>> = Vec::new();
            core::mem::swap(&mut self.entries, &mut entries);
            entries[at].value = value;
            assert(Seq::new(entries@.len(), |i: int| entries@[i].key@) =~= keys);
            core::mem::swap(&mut self.entries, &mut entries);
            assert(self.keys() =~= keys);
            assert(self.values() =~= values.update(at as int, value@));
        } else {
            let mut entries: Vec<Entry<V>> = Vec::new();
            core::mem::swap(&mut self.entries, &mut entries);
            entries.push(Entry { key, value });
            assert(Seq::new(entries@.len(), |i: int| entries@[i].key@) =~= keys.push(key@));
            core::mem::swap(&mut self.entries, &mut entries);
            assert(self.keys() =~= keys.push(key@));
            assert(self.values() =~= values.push(value@));
            assert(self.keys().drop_last() =~= keys);
            assert(self.values().drop_last() =~= values);
        }
    }
}

impl<V: View> View for KeyedStore<V> {
    type V = Map<Seq<char>, V::V>;

    closed spec fn view(&self) -> Map<Seq<char>, V::V> {
        paired(self.keys(), self.values())
    }
}

} // verus!
