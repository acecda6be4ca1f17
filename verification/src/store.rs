//! A map from text keys to values that remembers the order in which its keys
//! first came in. Both stores of the relayer are such maps.

use vstd::prelude::*;

verus! {

/// One key with its value.
struct Entry<V> {
    key: String,
    value: V,
}

/// A map keyed by text. Nothing is ever removed from it; a key that comes in
/// again keeps its place and takes the new value.
pub struct Store<V> {
    entries: Vec<Entry<V>>,
}

/// The keys of a list of entries, as character sequences.
spec fn keys_of<V>(entries: Seq<Entry<V>>) -> Seq<Seq<char>> {
    Seq::new(entries.len(), |i: int| entries[i].key@)
}

/// In a list without repetition, an item is found where it stands.
proof fn lemma_index_of_unique(keys: Seq<Seq<char>>, i: int)
    requires
        keys.no_duplicates(),
        0 <= i < keys.len(),
    ensures
        keys.contains(keys[i]),
        keys.index_of(keys[i]) == i,
{
    let j = keys.index_of(keys[i]);
    assert(0 <= j < keys.len() && keys[j] == keys[i]);
}

impl<V> View for Store<V> {
    type V = Map<Seq<char>, V>;

    closed spec fn view(&self) -> Map<Seq<char>, V> {
        let keys = keys_of(self.entries@);
        Map::new(
            |k: Seq<char>| keys.contains(k),
            |k: Seq<char>| self.entries@[keys.index_of(k)].value,
        )
    }
}

impl<V> Store<V> {
    #[verifier::type_invariant]
    spec fn keys_are_distinct(self) -> bool {
        keys_of(self.entries@).no_duplicates()
    }

    /// The keys in the order in which each first came in.
    pub closed spec fn order(&self) -> Seq<Seq<char>> {
        keys_of(self.entries@)
    }

    /// An empty store.
    pub fn new() -> (store: Self)
        ensures
            store@ == Map::<Seq<char>, V>::empty(),
            store.order() == Seq::<Seq<char>>::empty(),
    {
        let store = Store { entries: Vec::new() };
        assert(store@ =~= Map::<Seq<char>, V>::empty());
        assert(store.order() =~= Seq::<Seq<char>>::empty());
        store
    }

    /// Where `key` stands among the entries.
    fn position(&self, key: &String) -> (found: Option<usize>)
        ensures
            match found {
                Some(i) => i < self.entries.len() && self.entries[i as int].key@ == key@,
                None => !keys_of(self.entries@).contains(key@),
            },
    {
        let mut i: usize = 0;
        while i < self.entries.len()
            invariant
                i <= self.entries.len(),
                forall|j: int| 0 <= j < i ==> self.entries[j].key@ != key@,
            decreases self.entries.len() - i,
        {
            if self.entries[i].key == *key {
                return Some(i);
            }
            i += 1;
        }
        None
    }

    /// How many keys the store holds.
    pub fn len(&self) -> (n: usize)
        ensures
            self@.dom().finite(),
            n == self@.dom().len(),
            n == self.order().len(),
    {
        proof {
            use_type_invariant(self);
            let keys = keys_of(self.entries@);
            assert(self@.dom() =~= keys.to_set());
            vstd::seq_lib::seq_to_set_is_finite(keys);
            keys.unique_seq_to_set();
        }
        self.entries.len()
    }

    /// The value under `key`, if the store holds that key.
    pub fn get(&self, key: &str) -> (found: Option<&V>)
        ensures
            match found {
                Some(value) => self@.contains_key(key@) && *value == self@[key@],
                None => !self@.contains_key(key@),
            },
    {
        let wanted = key.to_owned();
        match self.position(&wanted) {
            Some(i) => {
                proof {
                    use_type_invariant(self);
                    lemma_index_of_unique(keys_of(self.entries@), i as int);
                }
                Some(&self.entries[i].value)
            },
            None => None,
        }
    }

    /// Puts `value` under `key`, in place of any value that the key had.
    pub fn insert(&mut self, key: String, value: V)
        ensures
            final(self)@ == old(self)@.insert(key@, value),
            final(self).order() == if old(self)@.contains_key(key@) {
                old(self).order()
            } else {
                old(self).order().push(key@)
            },
    {
        proof {
            use_type_invariant(&*self);
        }
        let ghost before = self.entries@;
        let ghost before_keys = keys_of(before);
        let ghost before_map = self@;
        let ghost k = key@;
        let found = self.position(&key);
        let mut entries: Vec<Entry<V>> = Vec::new();
        std::mem::swap(&mut entries, &mut self.entries);
        match found {
            Some(i) => {
                entries.set(i, Entry { key, value });
                proof {
                    assert(keys_of(entries@) =~= before_keys);
                }
                self.entries = entries;
                proof {
                    lemma_index_of_unique(before_keys, i as int);
                    assert(self@ =~= before_map.insert(k, value));
                }
            },
            None => {
                entries.push(Entry { key, value });
                proof {
                    assert(keys_of(entries@) =~= before_keys.push(k));
                }
                self.entries = entries;
                proof {
                    let after_keys = keys_of(self.entries@);
                    lemma_index_of_unique(after_keys, before.len() as int);
                    assert forall|q: Seq<char>| #[trigger]
                        before_map.contains_key(q) implies self@.contains_key(q) && self@[q]
                        == before_map[q] by {
                        let j = before_keys.index_of(q);
                        assert(after_keys[j] == q);
                        lemma_index_of_unique(after_keys, j);
                    }
                    assert forall|q: Seq<char>| #[trigger]
                        self@.contains_key(q) implies q == k || before_map.contains_key(q) by {
                        let j = after_keys.index_of(q);
                        if j < before.len() {
                            assert(before_keys[j] == q);
                        }
                    }
                    assert(self@ =~= before_map.insert(k, value));
                }
            },
        }
    }

    /// The values in the order of their keys.
    pub fn values(&self) -> (listed: Vec<&V>)
        ensures
            listed.len() == self.order().len(),
            self.order().no_duplicates(),
            self.order().to_set() == self@.dom(),
            forall|i: int|
                0 <= i < listed.len() ==> self@.contains_key(#[trigger] self.order()[i])
                    && *listed[i] == self@[self.order()[i]],
    {
        proof {
            use_type_invariant(self);
            assert(self@.dom() =~= keys_of(self.entries@).to_set());
        }
        let mut listed: Vec<&V> = Vec::new();
        let mut i: usize = 0;
        while i < self.entries.len()
            invariant
                i <= self.entries.len(),
                listed.len() == i,
                keys_of(self.entries@).no_duplicates(),
                forall|j: int|
                    0 <= j < i ==> self@.contains_key(#[trigger] self.order()[j]) && *listed[j]
                        == self@[self.order()[j]],
            decreases self.entries.len() - i,
        {
            proof {
                lemma_index_of_unique(keys_of(self.entries@), i as int);
            }
            listed.push(&self.entries[i].value);
            i += 1;
        }
        listed
    }
}

} // verus!
