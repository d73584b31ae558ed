//! A keyed collection of named entries.
//!
//! Sessions and connections are both looked up by a textual id. `Registry`
//! stores them in insertion order and never holds the same id twice; that
//! uniqueness is a type invariant, so no caller has to assume it.

use vstd::prelude::*;

verus! {

struct Entry<V> {
    key: String,
    value: V,
}

/// An insertion-ordered table from ids to values in which every id occurs
/// at most once.
pub struct Registry<V> {
    entries: Vec<Entry<V>>,
}

spec fn entry_keys<V>(entries: Seq<Entry<V>>) -> Seq<Seq<char>> {
    Seq::new(entries.len(), |i: int| entries[i].key@)
}

spec fn entry_values<V>(entries: Seq<Entry<V>>) -> Seq<V> {
    Seq::new(entries.len(), |i: int| entries[i].value)
}

/// The ids after an attempt to register `id`: a new id goes to the end, and
/// an id that is taken changes nothing.
pub open spec fn registered(ids: Seq<Seq<char>>, id: Seq<char>) -> Seq<Seq<char>> {
    if ids.contains(id) {
        ids
    } else {
        ids.push(id)
    }
}

/// The ids after an attempt to take `id` out: a registered id leaves and the
/// others keep their order, and an unknown id changes nothing.
pub open spec fn unregistered(ids: Seq<Seq<char>>, id: Seq<char>) -> Seq<Seq<char>> {
    if ids.contains(id) {
        ids.remove(ids.index_of(id))
    } else {
        ids
    }
}

/// In a sequence without repetition, the position found for an element is
/// the position it stands at.
pub proof fn lemma_index_of_distinct(keys: Seq<Seq<char>>, i: int)
    requires
        keys.no_duplicates(),
        0 <= i < keys.len(),
    ensures
        keys.index_of(keys[i]) == i,
{
    let j = keys.index_of(keys[i]);
    assert(keys.contains(keys[i]));
    assert(0 <= j < keys.len() && keys[j] == keys[i]);
}

/// Removing one position from a sequence without repetition leaves a
/// sequence without repetition that no longer contains the removed element
/// and still contains every other one.
pub proof fn lemma_remove_distinct(keys: Seq<Seq<char>>, i: int)
    requires
        keys.no_duplicates(),
        0 <= i < keys.len(),
    ensures
        keys.remove(i).no_duplicates(),
        !keys.remove(i).contains(keys[i]),
        forall|k: Seq<char>| k != keys[i] ==> (keys.remove(i).contains(k) <==> keys.contains(k)),
        keys.remove(i).to_set() == keys.to_set().remove(keys[i]),
{
    let rest = keys.remove(i);
    assert forall|a: int, b: int| 0 <= a < rest.len() && 0 <= b < rest.len() && a != b implies rest[a]
        != rest[b] by {
        let a0 = if a < i { a } else { a + 1 };
        let b0 = if b < i { b } else { b + 1 };
        assert(rest[a] == keys[a0] && rest[b] == keys[b0]);
    }
    assert(!rest.contains(keys[i])) by {
        if rest.contains(keys[i]) {
            let a = choose|a: int| 0 <= a < rest.len() && rest[a] == keys[i];
            let a0 = if a < i { a } else { a + 1 };
            assert(keys[a0] == keys[i]);
        }
    }
    assert forall|k: Seq<char>| k != keys[i] implies (rest.contains(k) <==> keys.contains(k)) by {
        if rest.contains(k) {
            let a = choose|a: int| 0 <= a < rest.len() && rest[a] == k;
            let a0 = if a < i { a } else { a + 1 };
            assert(keys[a0] == k);
        }
        if keys.contains(k) {
            let a0 = choose|a0: int| 0 <= a0 < keys.len() && keys[a0] == k;
            let a = if a0 < i { a0 } else { a0 - 1 };
            assert(rest[a] == k);
        }
    }
    assert(rest.to_set() =~= keys.to_set().remove(keys[i]));
}

/// Appending an element that is not yet present keeps a sequence free of
/// repetition and adds exactly that element to its set.
pub proof fn lemma_push_distinct(keys: Seq<Seq<char>>, key: Seq<char>)
    requires
        keys.no_duplicates(),
        !keys.contains(key),
    ensures
        keys.push(key).no_duplicates(),
        keys.push(key).to_set() == keys.to_set().insert(key),
        keys.push(key).index_of(key) == keys.len(),
{
    let more = keys.push(key);
    assert forall|a: int, b: int| 0 <= a < more.len() && 0 <= b < more.len() && a != b implies more[a]
        != more[b] by {
        if a < keys.len() {
            assert(keys.contains(more[a]));
        }
        if b < keys.len() {
            assert(keys.contains(more[b]));
        }
    }
    assert forall|k: Seq<char>| more.to_set().contains(k) <==> keys.to_set().insert(key).contains(
        k,
    ) by {
        if more.contains(k) {
            let a = choose|a: int| 0 <= a < more.len() && more[a] == k;
            if a < keys.len() {
                assert(keys[a] == k);
            }
        }
        if keys.contains(k) {
            let a = choose|a: int| 0 <= a < keys.len() && keys[a] == k;
            assert(more[a] == k);
        }
        assert(more[keys.len() as int] == key);
    }
    assert(more.to_set() =~= keys.to_set().insert(key));
    lemma_index_of_distinct(more, keys.len() as int);
}

impl<V> Registry<V> {
    /// The ids held, in insertion order.
    pub closed spec fn keys(&self) -> Seq<Seq<char>> {
        entry_keys(self.entries@)
    }

    /// The values held, each at the position of its id in `keys`.
    pub closed spec fn values(&self) -> Seq<V> {
        entry_values(self.entries@)
    }

    #[verifier::type_invariant]
    spec fn distinct_keys(&self) -> bool {
        entry_keys(self.entries@).no_duplicates()
    }

    /// What every registry satisfies: one value per id, and no id twice.
    pub open spec fn valid(&self) -> bool {
        &&& self.keys().len() == self.values().len()
        &&& self.keys().no_duplicates()
    }

    /// Whether `key` is registered.
    pub open spec fn contains_key(&self, key: Seq<char>) -> bool {
        self.keys().contains(key)
    }

    /// The set of registered ids.
    pub open spec fn dom(&self) -> Set<Seq<char>> {
        self.keys().to_set()
    }

    /// The position of a registered id.
    pub open spec fn position(&self, key: Seq<char>) -> int {
        self.keys().index_of(key)
    }

    /// The value registered under `key`.
    pub open spec fn value_of(&self, key: Seq<char>) -> V {
        self.values()[self.position(key)]
    }

    /// An empty registry.
    pub fn new() -> (r: Self)
        ensures
            r.valid(),
            r.keys() == Seq::<Seq<char>>::empty(),
            r.values() == Seq::<V>::empty(),
    {
        let entries: Vec<Entry<V>> = Vec::new();
        assert(entry_keys(entries@) =~= Seq::<Seq<char>>::empty());
        assert(entry_values(entries@) =~= Seq::<V>::empty());
        Registry { entries }
    }

    /// The number of registered ids.
    pub fn len(&self) -> (n: usize)
        ensures
            self.valid(),
            n == self.keys().len(),
    {
        proof {
            use_type_invariant(self);
        }
        self.entries.len()
    }

    /// The position of `key`, if it is registered.
    pub fn find(&self, key: &String) -> (r: Option<usize>)
        ensures
            self.valid(),
            match r {
                Some(i) => self.contains_key(key@) && i == self.position(key@) && i
                    < self.keys().len(),
                None => !self.contains_key(key@),
            },
    {
        proof {
            use_type_invariant(self);
        }
        let mut i: usize = 0;
        while i < self.entries.len()
            invariant
                i <= self.entries.len(),
                self.keys().no_duplicates(),
                forall|j: int| 0 <= j < i ==> self.keys()[j] != key@,
            decreases self.entries.len() - i,
        {
            if self.entries[i].key == *key {
                proof {
                    assert(self.keys()[i as int] == key@);
                    lemma_index_of_distinct(self.keys(), i as int);
                }
                return Some(i);
            }
            i += 1;
        }
        None
    }

    /// Whether `key` is registered.
    pub fn contains(&self, key: &String) -> (r: bool)
        ensures
            self.valid(),
            r == self.contains_key(key@),
    {
        self.find(key).is_some()
    }

    /// The id at position `i`.
    pub(crate) fn key_at(&self, i: usize) -> (key: &String)
        requires
            i < self.keys().len(),
        ensures
            key@ == self.keys()[i as int],
    {
        &self.entries[i].key
    }

    /// The value at position `i`.
    pub(crate) fn value_at(&self, i: usize) -> (value: &V)
        requires
            i < self.keys().len(),
        ensures
            *value == self.values()[i as int],
    {
        &self.entries[i].value
    }

    /// The id and the value at position `i`, if there is such a position.
    pub fn entry_at(&self, i: usize) -> (entry: Option<(&String, &V)>)
        ensures
            self.valid(),
            match entry {
                Some((key, value)) => {
                    &&& i < self.keys().len()
                    &&& key@ == self.keys()[i as int]
                    &&& *value == self.values()[i as int]
                },
                None => i >= self.keys().len(),
            },
    {
        proof {
            use_type_invariant(self);
        }
        if i < self.entries.len() {
            Some((&self.entries[i].key, &self.entries[i].value))
        } else {
            None
        }
    }

    /// The value registered under `key`, if any.
    pub fn get(&self, key: &String) -> (r: Option<&V>)
        ensures
            self.valid(),
            match r {
                Some(v) => self.contains_key(key@) && *v == self.value_of(key@),
                None => !self.contains_key(key@),
            },
    {
        match self.find(key) {
            Some(i) => Some(&self.entries[i].value),
            None => None,
        }
    }

    fn take_entries(&mut self) -> (entries: Vec<Entry<V>>)
        ensures
            entries == old(self).entries,
            entry_keys(entries@).no_duplicates(),
            final(self).entries@.len() == 0,
    {
        proof {
            use_type_invariant(&*self);
        }
        let empty: Vec<Entry<V>> = Vec::new();
        assert(entry_keys(empty@) =~= Seq::<Seq<char>>::empty());
        let mut hold = Registry { entries: empty };
        std::mem::swap(self, &mut hold);
        let Registry { entries } = hold;
        entries
    }

    /// Registers `value` under `key` unless the id is taken. Returns whether
    /// it was registered; a taken id leaves the registry as it was.
    pub fn insert(&mut self, key: String, value: V) -> (added: bool)
        ensures
            final(self).valid(),
            added == !old(self).contains_key(key@),
            final(self).keys() == registered(old(self).keys(), key@),
            final(self).contains_key(key@),
            added ==> final(self).keys() == old(self).keys().push(key@),
            added ==> final(self).values() == old(self).values().push(value),
            added ==> final(self).dom() == old(self).dom().insert(key@),
            added ==> final(self).value_of(key@) == value,
            !added ==> *final(self) == *old(self),
    {
        match self.find(&key) {
            Some(_) => false,
            None => {
                let ghost before = *self;
                let mut entries = self.take_entries();
                entries.push(Entry { key, value });
                proof {
                    assert(entry_keys(entries@) =~= before.keys().push(key@));
                    assert(entry_values(entries@) =~= before.values().push(value));
                    lemma_push_distinct(before.keys(), key@);
                    assert(before.keys().push(key@)[before.keys().len() as int] == key@);
                }
                *self = Registry { entries };
                true
            },
        }
    }

    /// Takes the value registered under `key` out of the registry.
    pub fn remove(&mut self, key: &String) -> (r: Option<V>)
        ensures
            final(self).valid(),
            !final(self).contains_key(key@),
            final(self).keys() == unregistered(old(self).keys(), key@),
            match r {
                Some(v) => {
                    &&& old(self).contains_key(key@)
                    &&& v == old(self).value_of(key@)
                    &&& final(self).keys() == old(self).keys().remove(old(self).position(key@))
                    &&& final(self).values() == old(self).values().remove(
                        old(self).position(key@),
                    )
                    &&& final(self).dom() == old(self).dom().remove(key@)
                },
                None => !old(self).contains_key(key@) && *final(self) == *old(self),
            },
    {
        match self.find(key) {
            None => None,
            Some(i) => {
                let ghost before = *self;
                let mut entries = self.take_entries();
                let entry = entries.remove(i);
                proof {
                    assert(entry_keys(entries@) =~= before.keys().remove(i as int));
                    assert(entry_values(entries@) =~= before.values().remove(i as int));
                    lemma_remove_distinct(before.keys(), i as int);
                }
                *self = Registry { entries };
                Some(entry.value)
            },
        }
    }

    /// Puts back, with the value `value`, the entry that `remove` took out
    /// from under `key` at position `at`. `keys` and `values` are what the
    /// registry held before that: afterwards it holds the same ids in the
    /// same order, and the same values but for the one that was replaced.
    pub(crate) fn put_back(
        &mut self,
        at: usize,
        key: String,
        value: V,
        Ghost(keys): Ghost<Seq<Seq<char>>>,
        Ghost(values): Ghost<Seq<V>>,
    )
        requires
            keys.no_duplicates(),
            keys.len() == values.len(),
            keys.contains(key@),
            at == keys.index_of(key@),
            old(self).keys() == keys.remove(at as int),
            old(self).values() == values.remove(at as int),
        ensures
            final(self).valid(),
            final(self).keys() == keys,
            final(self).values() == values.update(at as int, value),
    {
        proof {
            assert(0 <= at < keys.len() && keys[at as int] == key@);
            lemma_remove_distinct(keys, at as int);
        }
        let mut entries = self.take_entries();
        let ghost rest = entries@;
        proof {
            assert(entry_keys(rest) == keys.remove(at as int));
            assert(entry_values(rest) == values.remove(at as int));
            assert(rest.len() == entry_keys(rest).len());
        }
        entries.insert(at, Entry { key, value });
        proof {
            assert forall|i: int| 0 <= i < keys.len() implies entry_keys(entries@)[i] == keys[i] by {
                if i < at {
                    assert(entry_keys(rest)[i] == keys[i]);
                } else if i > at {
                    assert(entry_keys(rest)[i - 1] == keys[i]);
                }
            }
            assert(entry_keys(entries@) =~= keys);
            assert forall|i: int| 0 <= i < values.len() implies entry_values(entries@)[i]
                == values.update(at as int, value)[i] by {
                if i < at {
                    assert(entry_values(rest)[i] == values[i]);
                } else if i > at {
                    assert(entry_values(rest)[i - 1] == values[i]);
                }
            }
            assert(entry_values(entries@) =~= values.update(at as int, value));
        }
        *self = Registry { entries };
    }

    /// Takes every value out, in registration order, leaving the registry
    /// empty.
    pub fn drain(&mut self) -> (values: Vec<V>)
        ensures
            final(self).valid(),
            final(self).keys() == Seq::<Seq<char>>::empty(),
            final(self).values() == Seq::<V>::empty(),
            values@ == old(self).values(),
    {
        let ghost before = *self;
        let mut entries = self.take_entries();
        let mut values: Vec<V> = Vec::new();
        assert(self.keys() =~= Seq::<Seq<char>>::empty());
        assert(self.values() =~= Seq::<V>::empty());
        while entries.len() > 0
            invariant
                values@ + entry_values(entries@) == before.values(),
            decreases entries.len(),
        {
            let ghost prev = entries@;
            let ghost done = values@;
            let entry = entries.remove(0);
            values.push(entry.value);
            assert(values@ + entry_values(entries@) =~= done + entry_values(prev));
        }
        assert(values@ =~= values@ + entry_values(entries@));
        values
    }

    /// Drops every entry.
    pub fn clear(&mut self)
        ensures
            final(self).valid(),
            final(self).keys() == Seq::<Seq<char>>::empty(),
            final(self).values() == Seq::<V>::empty(),
    {
        let _ = self.take_entries();
        assert(self.keys() =~= Seq::<Seq<char>>::empty());
        assert(self.values() =~= Seq::<V>::empty());
    }
}

} // verus!
