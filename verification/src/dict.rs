//! A small map from texts to values that keeps the order in which its keys
//! were first inserted.

use crate::text::same_text;
use vstd::prelude::*;
use vstd::string::*;

verus! {

/// A map keyed by texts, held as a list of entries. Where a key occurs more
/// than once in the list, its first entry counts; the methods never add a
/// key twice.
#[derive(Debug)]
pub struct Dict<V> {
    pub entries: Vec<(String, V)>,
}

/// The value of the first entry with the key.
pub open spec fn lookup<V>(entries: Seq<(String, V)>, key: Seq<char>) -> Option<V>
    decreases entries.len(),
{
    if entries.len() == 0 {
        None
    } else if entries[0].0@ == key {
        Some(entries[0].1)
    } else {
        lookup(entries.drop_first(), key)
    }
}

/// No key occurs twice in the list.
pub open spec fn unique_keys<V>(entries: Seq<(String, V)>) -> bool {
    forall|i: int, j: int| 0 <= i < j < entries.len() ==> entries[i].0@ != entries[j].0@
}

/// The keys of the entries, in their order.
pub open spec fn keys_of<V>(entries: Seq<(String, V)>) -> Seq<Seq<char>> {
    entries.map_values(|entry: (String, V)| entry.0@)
}

/// A key is looked up in the entries behind an entry with another key as
/// in the whole list.
pub proof fn lemma_lookup_skips<V>(entries: Seq<(String, V)>, key: Seq<char>, upto: int)
    requires
        0 <= upto <= entries.len(),
        forall|j: int| 0 <= j < upto ==> entries[j].0@ != key,
    ensures
        lookup(entries, key) == lookup(entries.subrange(upto, entries.len() as int), key),
    decreases upto,
{
    if upto == 0 {
        assert(entries.subrange(0, entries.len() as int) =~= entries);
    } else {
        lemma_lookup_skips(entries.drop_first(), key, upto - 1);
        assert(entries.drop_first().subrange(upto - 1, entries.len() - 1) =~= entries.subrange(
            upto,
            entries.len() as int,
        ));
    }
}

/// Looking a key up after the value of one entry was replaced.
pub proof fn lemma_lookup_after_update<V>(
    entries: Seq<(String, V)>,
    at: int,
    value: V,
    replaced: (String, V),
    key: Seq<char>,
)
    requires
        0 <= at < entries.len(),
        forall|j: int| 0 <= j < at ==> entries[j].0@ != entries[at].0@,
        replaced.0@ == entries[at].0@,
        replaced.1 == value,
    ensures
        lookup(entries.update(at, replaced), key) == if key == entries[at].0@ {
            Some(value)
        } else {
            lookup(entries, key)
        },
    decreases at,
{
    let after = entries.update(at, replaced);
    if at == 0 {
        assert(after.drop_first() =~= entries.drop_first());
    } else {
        assert(after.drop_first() =~= entries.drop_first().update(at - 1, replaced));
        lemma_lookup_after_update(entries.drop_first(), at - 1, value, replaced, key);
    }
}

/// Looking a key up after an entry was added at the end.
pub proof fn lemma_lookup_after_push<V>(
    entries: Seq<(String, V)>,
    added: (String, V),
    key: Seq<char>,
)
    ensures
        lookup(entries.push(added), key) == if lookup(entries, key) is Some {
            lookup(entries, key)
        } else if key == added.0@ {
            Some(added.1)
        } else {
            None
        },
    decreases entries.len(),
{
    if entries.len() == 0 {
        assert(entries.push(added).drop_first() =~= entries);
    } else {
        assert(entries.push(added).drop_first() =~= entries.drop_first().push(added));
        lemma_lookup_after_push(entries.drop_first(), added, key);
    }
}

impl<V> View for Dict<V> {
    type V = Map<Seq<char>, V>;

    /// The map that the entries make up.
    open spec fn view(&self) -> Map<Seq<char>, V> {
        Map::new(
            |key: Seq<char>| lookup(self.entries@, key) is Some,
            |key: Seq<char>| lookup(self.entries@, key)->Some_0,
        )
    }
}

impl<V> Dict<V> {
    /// The keys in the order of the entries.
    pub open spec fn keys(&self) -> Seq<Seq<char>> {
        keys_of(self.entries@)
    }

    /// An empty map.
    pub fn new() -> (dict: Self)
        ensures
            dict@ == Map::<Seq<char>, V>::empty(),
            dict.entries@ == Seq::<(String, V)>::empty(),
    {
        let dict = Dict { entries: Vec::new() };
        assert(dict@ =~= Map::<Seq<char>, V>::empty());
        dict
    }

    /// The number of entries.
    pub fn len(&self) -> (len: usize)
        ensures
            len == self.entries@.len(),
    {
        self.entries.len()
    }

    /// Whether the map has no key.
    pub fn is_empty(&self) -> (empty: bool)
        ensures
            empty == (self.entries@.len() == 0),
            empty == (self@ == Map::<Seq<char>, V>::empty()),
    {
        proof {
            if self.entries@.len() == 0 {
                assert(self@ =~= Map::<Seq<char>, V>::empty());
            } else {
                assert(self@.contains_key(self.entries@[0].0@));
            }
        }
        self.entries.len() == 0
    }

    /// The place of the first entry with the key.
    fn position(&self, key: &str) -> (found: Option<usize>)
        ensures
            match found {
                Some(at) => at < self.entries@.len() && self.entries@[at as int].0@ == key@
                    && lookup(self.entries@, key@) == Some(self.entries@[at as int].1) && forall|
                    j: int,
                |
                    0 <= j < at ==> self.entries@[j].0@ != key@,
                None => lookup(self.entries@, key@) is None && forall|j: int|
                    0 <= j < self.entries@.len() ==> self.entries@[j].0@ != key@,
            },
    {
        let mut i: usize = 0;
        while i < self.entries.len()
            invariant
                i <= self.entries@.len(),
                forall|j: int| 0 <= j < i ==> self.entries@[j].0@ != key@,
            decreases self.entries.len() - i,
        {
            if same_text(self.entries[i].0.as_str(), key) {
                proof {
                    lemma_lookup_skips(self.entries@, key@, i as int);
                }
                return Some(i);
            }
            i += 1;
        }
        proof {
            lemma_lookup_skips(self.entries@, key@, self.entries@.len() as int);
        }
        None
    }

    /// Whether the map has the key.
    pub fn contains_key(&self, key: &str) -> (found: bool)
        ensures
            found == self@.contains_key(key@),
    {
        self.position(key).is_some()
    }

    /// The value under a key.
    pub fn get(&self, key: &str) -> (value: Option<&V>)
        ensures
            match value {
                Some(value) => self@.contains_key(key@) && *value == self@[key@],
                None => !self@.contains_key(key@),
            },
    {
        match self.position(key) {
            Some(at) => Some(&self.entries[at].1),
            None => None,
        }
    }

    /// Puts a value under a key. A key that is new comes last; one that
    /// is there keeps its place and gets the new value.
    pub fn insert(&mut self, key: String, value: V)
        ensures
            final(self)@ == old(self)@.insert(key@, value),
            final(self).keys() == if old(self)@.contains_key(key@) {
                old(self).keys()
            } else {
                old(self).keys().push(key@)
            },
            unique_keys(old(self).entries@) ==> unique_keys(final(self).entries@),
    {
        let ghost before = self.entries@;
        let ghost k = key@;
        match self.position(key.as_str()) {
            Some(at) => {
                self.entries.set(at, (key, value));
                proof {
                    let after = self.entries@;
                    assert(self.keys() =~= old(self).keys());
                    assert forall|key2: Seq<char>|
                        lookup(after, key2) == if key2 == k {
                            Some(value)
                        } else {
                            lookup(before, key2)
                        } by {
                        lemma_lookup_after_update(before, at as int, value, after[at as int], key2);
                    }
                    assert(self@ =~= old(self)@.insert(k, value));
                }
            },
            None => {
                self.entries.push((key, value));
                proof {
                    let after = self.entries@;
                    assert(self.keys() =~= old(self).keys().push(k));
                    assert forall|key2: Seq<char>|
                        lookup(after, key2) == if key2 == k {
                            Some(value)
                        } else {
                            lookup(before, key2)
                        } by {
                        lemma_lookup_after_push(before, after[before.len() as int], key2);
                    }
                    assert(self@ =~= old(self)@.insert(k, value));
                }
            },
        }
    }
}

} // verus!
