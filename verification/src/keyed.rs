//! Values under string keys, made on first use and never evicted.
use vstd::prelude::*;

verus! {

/// One key with the value kept under it.
pub struct Entry<V> {
    key: String,
    value: V,
}

/// Values under string keys. A value is made when its key is first asked for
/// and stays until the whole collection is dropped.
///
/// The collection is seen as the map from the keys in use to their values.
pub struct Keyed<V> {
    entries: Vec<Entry<V>>,
}

/// The value that `entries` keep under `key`: that of the hindmost entry with
/// this key.
spec fn lookup<V>(entries: Seq<Entry<V>>, key: Seq<char>) -> Option<V>
    decreases entries.len(),
{
    if entries.len() == 0 {
        None
    } else if entries.last().key@ == key {
        Some(entries.last().value)
    } else {
        lookup(entries.drop_last(), key)
    }
}

/// The map that `entries` stand for.
spec fn model<V>(entries: Seq<Entry<V>>) -> Map<Seq<char>, V> {
    Map::new(
        |key: Seq<char>| lookup(entries, key) is Some,
        |key: Seq<char>| lookup(entries, key)->0,
    )
}

proof fn lemma_lookup_absent<V>(entries: Seq<Entry<V>>, key: Seq<char>)
    requires
        forall|j: int| 0 <= j < entries.len() ==> entries[j].key@ != key,
    ensures
        lookup(entries, key) is None,
    decreases entries.len(),
{
    if entries.len() > 0 {
        lemma_lookup_absent(entries.drop_last(), key);
    }
}

proof fn lemma_lookup_hindmost<V>(entries: Seq<Entry<V>>, i: int, key: Seq<char>)
    requires
        0 <= i < entries.len(),
        entries[i].key@ == key,
        forall|j: int| i < j < entries.len() ==> entries[j].key@ != key,
    ensures
        lookup(entries, key) == Some(entries[i].value),
    decreases entries.len(),
{
    if i < entries.len() - 1 {
        lemma_lookup_hindmost(entries.drop_last(), i, key);
    }
}

proof fn lemma_lookup_update<V>(entries: Seq<Entry<V>>, i: int, entry: Entry<V>, key: Seq<char>)
    requires
        0 <= i < entries.len(),
        entry.key@ == entries[i].key@,
        forall|j: int| i < j < entries.len() ==> entries[j].key@ != entries[i].key@,
    ensures
        lookup(entries.update(i, entry), key) == if key == entry.key@ {
            Some(entry.value)
        } else {
            lookup(entries, key)
        },
    decreases entries.len(),
{
    let updated = entries.update(i, entry);
    if i == entries.len() - 1 {
        assert(updated.drop_last() =~= entries.drop_last());
    } else {
        assert(updated.drop_last() =~= entries.drop_last().update(i, entry));
        lemma_lookup_update(entries.drop_last(), i, entry, key);
    }
}

proof fn lemma_model_update<V>(entries: Seq<Entry<V>>, i: int, entry: Entry<V>)
    requires
        0 <= i < entries.len(),
        entry.key@ == entries[i].key@,
        forall|j: int| i < j < entries.len() ==> entries[j].key@ != entries[i].key@,
    ensures
        model(entries.update(i, entry)) == model(entries).insert(entry.key@, entry.value),
{
    assert forall|k: Seq<char>|
        lookup(entries.update(i, entry), k) == if k == entry.key@ {
            Some(entry.value)
        } else {
            lookup(entries, k)
        } by {
        lemma_lookup_update(entries, i, entry, k);
    }
}

impl<V> View for Keyed<V> {
    type V = Map<Seq<char>, V>;

    closed spec fn view(&self) -> Self::V {
        model(self.entries@)
    }
}

impl<V> Keyed<V> {
    /// A collection without keys.
    pub fn new() -> (keyed: Self)
        ensures
            keyed@ == Map::<Seq<char>, V>::empty(),
    {
        Keyed { entries: Vec::new() }
    }

    /// Where the hindmost entry with the key `name` stands.
    fn position(&self, name: &String) -> (found: Option<usize>)
        ensures
            match found {
                Some(i) => {
                    &&& i < self.entries.len()
                    &&& self.entries[i as int].key@ == name@
                    &&& forall|j: int|
                        i < j < self.entries.len() ==> self.entries[j].key@ != name@
                },
                None => forall|j: int|
                    0 <= j < self.entries.len() ==> self.entries[j].key@ != name@,
            },
    {
        let mut i: usize = self.entries.len();
        while i > 0
            invariant
                i <= self.entries.len(),
                forall|j: int| i <= j < self.entries.len() ==> self.entries[j].key@ != name@,
            decreases i,
        {
            i -= 1;
            if self.entries[i].key == *name {
                return Some(i);
            }
        }
        None
    }

    /// Whether `name` is in use.
    pub fn contains(&self, name: &String) -> (used: bool)
        ensures
            used == self@.contains_key(name@),
    {
        match self.position(name) {
            Some(i) => {
                proof {
                    lemma_lookup_hindmost(self.entries@, i as int, name@);
                }
                true
            },
            None => {
                proof {
                    lemma_lookup_absent(self.entries@, name@);
                }
                false
            },
        }
    }

    /// The value under `name`, by reference; `None` for a key that is not in
    /// use.
    pub fn get(&self, name: &String) -> (value: Option<&V>)
        ensures
            match value {
                Some(value) => self@.contains_key(name@) && *value == self@[name@],
                None => !self@.contains_key(name@),
            },
    {
        match self.position(name) {
            Some(i) => {
                proof {
                    lemma_lookup_hindmost(self.entries@, i as int, name@);
                }
                Some(&self.entries[i].value)
            },
            None => {
                proof {
                    lemma_lookup_absent(self.entries@, name@);
                }
                None
            },
        }
    }

    /// The value under `name`, made from `init` if the key is new. For a key
    /// in use, the value that is there is given and `init` is dropped. What
    /// is written through the reference is written into the collection; no
    /// other key is touched.
    pub fn entry(&mut self, name: String, init: V) -> (value: &mut V)
        ensures
            *value == if old(self)@.contains_key(name@) {
                old(self)@[name@]
            } else {
                init
            },
            final(self)@ == old(self)@.insert(name@, *final(value)),
    {
        let index = match self.position(&name) {
            Some(i) => {
                proof {
                    lemma_lookup_hindmost(self.entries@, i as int, name@);
                }
                i
            },
            None => {
                proof {
                    lemma_lookup_absent(self.entries@, name@);
                }
                let ghost before = self.entries@;
                self.entries.push(Entry { key: name, value: init });
                assert(self.entries@.drop_last() =~= before);
                self.entries.len() - 1
            },
        };
        let ghost entries = self.entries@;
        let ghost key = entries[index as int].key;
        proof {
            assert forall|value: V| #[trigger]
                model(entries.update(index as int, Entry { key, value })) == model(entries).insert(
                    name@,
                    value,
                ) by {
                lemma_model_update(entries, index as int, Entry { key, value });
            }
        }
        &mut self.entries[index].value
    }
}

} // verus!
