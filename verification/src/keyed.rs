//! A small map from texts to values, kept as a list in which no key occurs twice.

use vstd::prelude::*;

use crate::text::same_text;

verus! {

/// A map from texts to values.
pub struct Keyed<V> {
    entries: Vec<(String, V)>,
}

/// The value of the last entry under `key`.
pub open spec fn lookup<V>(entries: Seq<(String, V)>, key: Seq<char>) -> Option<V>
    decreases entries.len(),
{
    if entries.len() == 0 {
        None
    } else if entries.last().0@ == key {
        Some(entries.last().1)
    } else {
        lookup(entries.drop_last(), key)
    }
}

/// No key occurs twice.
pub open spec fn distinct_keys<V>(entries: Seq<(String, V)>) -> bool {
    forall|i: int, j: int|
        0 <= i < j < entries.len() ==> (#[trigger] entries[i]).0@ != (#[trigger] entries[j]).0@
}

impl<V> View for Keyed<V> {
    type V = Map<Seq<char>, V>;

    closed spec fn view(&self) -> Map<Seq<char>, V> {
        Map::new(
            |key: Seq<char>| lookup(self.entries@, key) is Some,
            |key: Seq<char>| lookup(self.entries@, key)->0,
        )
    }
}

proof fn lemma_lookup_from<V>(entries: Seq<(String, V)>, key: Seq<char>, n: int)
    requires
        0 <= n <= entries.len(),
        forall|i: int| n <= i < entries.len() ==> (#[trigger] entries[i]).0@ != key,
    ensures
        lookup(entries, key) == lookup(entries.take(n), key),
    decreases entries.len(),
{
    if n == entries.len() {
        assert(entries.take(n) =~= entries);
    } else {
        assert(entries.last() == entries[entries.len() - 1]);
        let shorter = entries.drop_last();
        assert forall|i: int| n <= i < shorter.len() implies (#[trigger] shorter[i]).0@ != key by {
            assert(shorter[i] == entries[i]);
        }
        lemma_lookup_from(shorter, key, n);
        assert(shorter.take(n) =~= entries.take(n));
    }
}

proof fn lemma_lookup_update<V>(
    entries: Seq<(String, V)>,
    at: int,
    entry: (String, V),
    other: Seq<char>,
)
    requires
        0 <= at < entries.len(),
        entries[at].0@ == entry.0@,
        other != entry.0@,
    ensures
        lookup(entries.update(at, entry), other) == lookup(entries, other),
    decreases entries.len(),
{
    let updated = entries.update(at, entry);
    if at == entries.len() - 1 {
        assert(updated.drop_last() =~= entries.drop_last());
    } else {
        assert(updated.drop_last() =~= entries.drop_last().update(at, entry));
        assert(entries.drop_last()[at] == entries[at]);
        lemma_lookup_update(entries.drop_last(), at, entry, other);
    }
}

impl<V> Keyed<V> {
    #[verifier::type_invariant]
    spec fn no_key_twice(self) -> bool {
        distinct_keys(self.entries@)
    }

    /// The empty map.
    pub fn new() -> (r: Keyed<V>)
        ensures
            r@ == Map::<Seq<char>, V>::empty(),
            r.listed().len() == 0,
    {
        let r = Keyed { entries: Vec::new() };
        assert(r@ =~= Map::<Seq<char>, V>::empty());
        r
    }

    /// The index of the last entry under `key`.
    fn position(&self, key: &str) -> (r: Option<usize>)
        ensures
            match r {
                Some(i) => {
                    &&& i < self.entries@.len()
                    &&& self.entries@[i as int].0@ == key@
                    &&& forall|j: int|
                        i < j < self.entries@.len() ==> (#[trigger] self.entries@[j]).0@ != key@
                },
                None => forall|j: int|
                    0 <= j < self.entries@.len() ==> (#[trigger] self.entries@[j]).0@ != key@,
            },
    {
        let mut n: usize = self.entries.len();
        while n > 0
            invariant
                n <= self.entries@.len(),
                forall|j: int|
                    n <= j < self.entries@.len() ==> (#[trigger] self.entries@[j]).0@ != key@,
            decreases n,
        {
            if same_text(self.entries[n - 1].0.as_str(), key) {
                return Some(n - 1);
            }
            n = n - 1;
        }
        None
    }

    /// The value under `key`, if there is one.
    pub fn get(&self, key: &str) -> (r: Option<&V>)
        ensures
            r is Some <==> self@.contains_key(key@),
            r matches Some(v) ==> *v == self@[key@],
    {
        match self.position(key) {
            Some(i) => {
                proof {
                    lemma_lookup_from(self.entries@, key@, i + 1);
                    assert(self.entries@.take(i + 1).last() == self.entries@[i as int]);
                }
                Some(&self.entries[i].1)
            },
            None => {
                proof {
                    lemma_lookup_from(self.entries@, key@, 0);
                }
                None
            },
        }
    }

    /// Puts `value` under `key`, in place of what was there.
    pub fn insert(&mut self, key: &str, value: V)
        ensures
            final(self)@ == old(self)@.insert(key@, value),
            final(self).listed_keys() == if old(self)@.contains_key(key@) {
                old(self).listed_keys()
            } else {
                old(self).listed_keys().push(key@)
            },
    {
        proof {
            use_type_invariant(&*self);
        }
        let ghost before = self.entries@;
        let ghost expected = self@.insert(key@, value);
        let found = self.position(key);
        let mut entries: Vec<(String, V)> = Vec::new();
        std::mem::swap(&mut entries, &mut self.entries);
        let entry = (key.to_owned(), value);
        let ghost e = entry;
        match found {
            Some(i) => {
                entries.set(i, entry);
                proof {
                    assert(entries@ =~= before.update(i as int, e));
                    assert forall|k: Seq<char>| k != key@ implies lookup(entries@, k) == lookup(
                        before,
                        k,
                    ) by {
                        lemma_lookup_update(before, i as int, e, k);
                    }
                    lemma_lookup_from(entries@, key@, i + 1);
                    assert(entries@.take(i + 1).last() == e);
                    lemma_lookup_from(before, key@, i + 1);
                    assert(before.take(i + 1).last() == before[i as int]);
                }
            },
            None => {
                entries.push(entry);
                proof {
                    assert(entries@.drop_last() =~= before);
                    assert(entries@.last() == e);
                    lemma_lookup_from(before, key@, 0);
                }
            },
        }
        self.entries = entries;
        assert(self@ =~= expected);
        assert(self.listed_keys() =~= if found is Some {
            old(self).listed_keys()
        } else {
            old(self).listed_keys().push(key@)
        });
    }

    /// How many entries there are.
    pub fn len(&self) -> (r: usize)
        ensures
            r == self.listed().len(),
            r == self@.len(),
            distinct_keys(self.listed()),
    {
        proof {
            use_type_invariant(self);
            lemma_listed_len(self.entries@);
            assert(self@.dom() =~= keys_of(self.entries@));
        }
        self.entries.len()
    }

    /// The entries in the order in which their keys first came.
    pub closed spec fn listed(&self) -> Seq<(String, V)> {
        self.entries@
    }

    /// The keys of the entries, in the same order.
    pub open spec fn listed_keys(&self) -> Seq<Seq<char>> {
        self.listed().map_values(|entry: (String, V)| entry.0@)
    }

    /// The entry at `index`.
    pub fn entry(&self, index: usize) -> (r: &(String, V))
        requires
            index < self.listed().len(),
        ensures
            *r == self.listed()[index as int],
            self@.contains_key(r.0@),
            self@[r.0@] == r.1,
    {
        proof {
            use_type_invariant(self);
            law_entries_are_members(*self, index as int);
        }
        &self.entries[index]
    }
}

/// The keys of a list of entries.
spec fn keys_of<V>(entries: Seq<(String, V)>) -> Set<Seq<char>> {
    Set::new(|key: Seq<char>| lookup(entries, key) is Some)
}

proof fn lemma_listed_len<V>(entries: Seq<(String, V)>)
    requires
        distinct_keys(entries),
    ensures
        keys_of(entries).finite(),
        keys_of(entries).len() == entries.len(),
    decreases entries.len(),
{
    if entries.len() == 0 {
        assert(keys_of(entries) =~= Set::empty());
    } else {
        let shorter = entries.drop_last();
        assert(distinct_keys(shorter)) by {
            assert forall|i: int, j: int| 0 <= i < j < shorter.len() implies (
            #[trigger] shorter[i]).0@ != (#[trigger] shorter[j]).0@ by {
                assert(shorter[i] == entries[i] && shorter[j] == entries[j]);
            }
        }
        lemma_listed_len(shorter);
        let key = entries.last().0@;
        assert(keys_of(entries) =~= keys_of(shorter).insert(key));
        if keys_of(shorter).contains(key) {
            lemma_lookup_finds(shorter, key);
            let i = choose|i: int| 0 <= i < shorter.len() && (#[trigger] shorter[i]).0@ == key;
            assert(entries[i].0@ == entries[entries.len() - 1].0@);
        }
    }
}

/// The entries of a map are its members: each key with the value that is found under it.
pub proof fn law_entries_are_members<V>(map: Keyed<V>, index: int)
    requires
        distinct_keys(map.listed()),
        0 <= index < map.listed().len(),
    ensures
        map@.contains_key(map.listed()[index].0@),
        map@[map.listed()[index].0@] == map.listed()[index].1,
{
    let key = map.entries@[index].0@;
    lemma_lookup_from(map.entries@, key, index + 1);
    assert(map.entries@.take(index + 1).last() == map.entries@[index]);
}

/// Every member of a map is among its entries.
pub proof fn law_members_are_entries<V>(map: Keyed<V>, key: Seq<char>)
    requires
        map@.contains_key(key),
    ensures
        exists|index: int|
            0 <= index < map.listed().len() && (#[trigger] map.listed()[index]).0@ == key,
{
    lemma_lookup_finds(map.entries@, key);
    let index = choose|index: int|
        0 <= index < map.entries@.len() && (#[trigger] map.entries@[index]).0@ == key;
    assert(map.listed()[index].0@ == key);
}

proof fn lemma_lookup_finds<V>(entries: Seq<(String, V)>, key: Seq<char>)
    requires
        lookup(entries, key) is Some,
    ensures
        exists|index: int| 0 <= index < entries.len() && (#[trigger] entries[index]).0@ == key,
    decreases entries.len(),
{
    if entries.last().0@ == key {
        assert(entries[entries.len() - 1].0@ == key);
    } else {
        let shorter = entries.drop_last();
        lemma_lookup_finds(shorter, key);
        let index = choose|index: int|
            0 <= index < shorter.len() && (#[trigger] shorter[index]).0@ == key;
        assert(entries[index].0@ == key);
    }
}

} // verus!
