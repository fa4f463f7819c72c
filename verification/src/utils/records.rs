//! String-keyed records: small ordered maps from column name to field.

use vstd::prelude::*;

verus! {

/// A key with its value.
pub type Entry<V> = (Seq<char>, V);

/// The position of the first entry under `key`; the length of `entries`
/// where there is none.
pub open spec fn key_index<V>(entries: Seq<Entry<V>>, key: Seq<char>) -> int
    decreases entries.len(),
{
    if entries.len() == 0 {
        0
    } else if entries[0].0 == key {
        0
    } else {
        1 + key_index(entries.drop_first(), key)
    }
}

/// Whether some entry is under `key`.
pub open spec fn has_key<V>(entries: Seq<Entry<V>>, key: Seq<char>) -> bool {
    key_index(entries, key) < entries.len()
}

/// The value under `key`, if any.
pub open spec fn value_of<V>(entries: Seq<Entry<V>>, key: Seq<char>) -> Option<V> {
    if has_key(entries, key) {
        Some(entries[key_index(entries, key)].1)
    } else {
        None
    }
}

/// `entries` with `value` under `key`: in the key's place where it has
/// one, at the end where it is new.
pub open spec fn put<V>(entries: Seq<Entry<V>>, key: Seq<char>, value: V) -> Seq<Entry<V>> {
    if has_key(entries, key) {
        entries.update(key_index(entries, key), (key, value))
    } else {
        entries.push((key, value))
    }
}

/// The keys of `entries`, in their order.
pub open spec fn keys_of<V>(entries: Seq<Entry<V>>) -> Seq<Seq<char>> {
    Seq::new(entries.len(), |i: int| entries[i].0)
}

/// The mapping that `entries` stand for.
pub open spec fn as_map<V>(entries: Seq<Entry<V>>) -> Map<Seq<char>, V> {
    Map::new(
        |k: Seq<char>| has_key(entries, k),
        |k: Seq<char>| entries[key_index(entries, k)].1,
    )
}

/// Whether no two entries share a key.
pub open spec fn distinct_keys<V>(entries: Seq<Entry<V>>) -> bool {
    forall|i: int, j: int|
        0 <= i < j < entries.len() ==> (#[trigger] entries[i]).0 != (#[trigger] entries[j]).0
}

/// `key_index` is the first position under the key: nothing before it is
/// under the key, and it is either the length or a position under the key.
pub proof fn lemma_key_index<V>(entries: Seq<Entry<V>>, key: Seq<char>)
    ensures
        0 <= key_index(entries, key) <= entries.len(),
        forall|j: int| 0 <= j < key_index(entries, key) ==> (#[trigger] entries[j]).0 != key,
        has_key(entries, key) ==> entries[key_index(entries, key)].0 == key,
    decreases entries.len(),
{
    if entries.len() > 0 && entries[0].0 != key {
        let rest = entries.drop_first();
        lemma_key_index(rest, key);
        assert forall|j: int| 0 <= j < key_index(entries, key) implies (#[trigger] entries[j]).0
            != key by {
            if j > 0 {
                assert(entries[j] == rest[j - 1]);
            }
        }
    }
}

/// A position with the key and nothing under the key before it is the
/// key's index; so is the length when nothing is under the key.
pub proof fn lemma_key_index_is<V>(entries: Seq<Entry<V>>, key: Seq<char>, i: int)
    requires
        0 <= i <= entries.len(),
        forall|j: int| 0 <= j < i ==> (#[trigger] entries[j]).0 != key,
        i < entries.len() ==> entries[i].0 == key,
    ensures
        key_index(entries, key) == i,
{
    lemma_key_index(entries, key);
}

/// Putting a value under a key changes the mapping at that key and
/// nowhere else, keeps the order of the keys already there, and keeps keys
/// distinct.
pub proof fn lemma_put<V>(entries: Seq<Entry<V>>, key: Seq<char>, value: V)
    ensures
        as_map(put(entries, key, value)) == as_map(entries).insert(key, value),
        keys_of(put(entries, key, value)) == if has_key(entries, key) {
            keys_of(entries)
        } else {
            keys_of(entries).push(key)
        },
        distinct_keys(entries) ==> distinct_keys(put(entries, key, value)),
{
    let after = put(entries, key, value);
    let at = key_index(entries, key);
    lemma_key_index(entries, key);
    assert forall|q: Seq<char>|
        #![trigger key_index(after, q)]
        key_index(after, q) == (if q == key {
            at
        } else if has_key(entries, q) {
            key_index(entries, q)
        } else {
            after.len() as int
        }) && (has_key(entries, q) ==> entries[key_index(entries, q)].0 == q) by {
        lemma_key_index(entries, q);
        let want = if q == key {
            at
        } else if has_key(entries, q) {
            key_index(entries, q)
        } else {
            after.len() as int
        };
        lemma_key_index_is(after, q, want);
    }
    assert forall|q: Seq<char>| as_map(after).contains_key(q) == as_map(entries).insert(
        key,
        value,
    ).contains_key(q) by {
        let _ = key_index(after, q);
    }
    assert forall|q: Seq<char>| as_map(after).contains_key(q) implies as_map(after)[q]
        == as_map(entries).insert(key, value)[q] by {
        let _ = key_index(after, q);
        lemma_key_index(entries, q);
    }
}

/// An ordered map from text keys to values. Keys are unique; they keep
/// the order in which they were first inserted.
#[derive(Debug, Clone, PartialEq, Eq)]
pub struct StringMap<V> {
    entries: Vec<(String, V)>,
}

/// One string-keyed record of text fields.
pub type Record = StringMap<String>;

impl<V: View> View for StringMap<V> {
    type V = Map<Seq<char>, V::V>;

    open spec fn view(&self) -> Map<Seq<char>, V::V> {
        as_map(self.entries())
    }
}

impl<V: View> StringMap<V> {
    /// The map's entries, in insertion order.
    pub closed spec fn entries(&self) -> Seq<Entry<V::V>> {
        Seq::new(self.entries@.len(), |i: int| (self.entries@[i].0@, self.entries@[i].1@))
    }

    pub fn new() -> (r: Self)
        ensures
            r.entries() == Seq::<Entry<V::V>>::empty(),
    {
        let r = StringMap { entries: Vec::new() };
        assert(r.entries() =~= Seq::<Entry<V::V>>::empty());
        r
    }

    /// The number of entries.
    pub fn len(&self) -> (n: usize)
        ensures
            n == self.entries().len(),
    {
        self.entries.len()
    }

    /// The key and the value at position `i`.
    pub fn entry_at(&self, i: usize) -> (r: (&String, &V))
        requires
            i < self.entries().len(),
        ensures
            (r.0@, r.1@) == self.entries()[i as int],
    {
        (&self.entries[i].0, &self.entries[i].1)
    }

    /// The position of the first entry under `key`, or the length.
    fn find(&self, key: &str) -> (i: usize)
        ensures
            i == key_index(self.entries(), key@),
    {
        let mut i: usize = 0;
        while i < self.entries.len()
            invariant
                i <= self.entries.len(),
                forall|j: int| 0 <= j < i ==> (#[trigger] self.entries()[j]).0 != key@,
            decreases self.entries.len() - i,
        {
            if str::eq(self.entries[i].0.as_str(), key) {
                proof {
                    lemma_key_index_is(self.entries(), key@, i as int);
                }
                return i;
            }
            i = i + 1;
        }
        proof {
            lemma_key_index_is(self.entries(), key@, i as int);
        }
        i
    }

    /// The value under `key`, if the map has one.
    pub fn get(&self, key: &str) -> (r: Option<&V>)
        ensures
            match r {
                Some(v) => value_of(self.entries(), key@) == Some(v@),
                None => value_of(self.entries(), key@) is None,
            },
    {
        let i: usize = self.find(key);
        if i < self.entries.len() {
            Some(&self.entries[i].1)
        } else {
            None
        }
    }

    /// Puts `value` under `key`, replacing what was there.
    pub fn insert(&mut self, key: String, value: V)
        ensures
            final(self).entries() == put(old(self).entries(), key@, value@),
    {
        let i: usize = self.find(key.as_str());
        if i < self.entries.len() {
            self.entries.set(i, (key, value));
        } else {
            self.entries.push((key, value));
        }
        assert(self.entries() =~= put(old(self).entries(), key@, value@));
    }

    /// The keys, in insertion order.
    pub fn keys(&self) -> (r: Vec<String>)
        ensures
            r.deep_view() == keys_of(self.entries()),
    {
        let mut r: Vec<String> = Vec::new();
        let mut i: usize = 0;
        while i < self.entries.len()
            invariant
                i <= self.entries.len(),
                r@.len() == i,
                forall|j: int| 0 <= j < i ==> (#[trigger] r@[j])@ == self.entries@[j].0@,
            decreases self.entries.len() - i,
        {
            r.push(self.entries[i].0.clone());
            i = i + 1;
        }
        assert(r.deep_view() =~= keys_of(self.entries()));
        r
    }
}

} // verus!
