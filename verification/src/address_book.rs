use crate::address::Address;
use vstd::prelude::*;

verus! {

/// A finite map from addresses to values, the shape in which a contract keeps
/// one record per address (a profile, say).
///
/// Keys are held in a vector without repetitions, each beside its value.
pub struct AddressBook<V> {
    keys: Vec<Address>,
    values: Vec<V>,
}

impl<V> View for AddressBook<V> {
    type V = Map<Address, V>;

    closed spec fn view(&self) -> Map<Address, V> {
        Map::new(
            |k: Address| self.keys@.contains(k),
            |k: Address| self.values@[self.keys@.index_of(k)],
        )
    }
}

/// The map that a list of (key, value) entries describes, later entries
/// taking precedence.
pub open spec fn entries_map<V>(entries: Seq<(Address, V)>) -> Map<Address, V>
    decreases entries.len(),
{
    if entries.len() == 0 {
        Map::empty()
    } else {
        entries_map(entries.drop_last()).insert(entries.last().0, entries.last().1)
    }
}

/// No key occurs twice among the entries.
pub open spec fn keys_distinct<V>(entries: Seq<(Address, V)>) -> bool {
    forall|i: int, j: int| 0 <= i < j < entries.len() ==> entries[i].0 != entries[j].0
}

/// The keys of `entries_map(entries)` are those of the entries.
pub proof fn lemma_entries_map_keys<V>(entries: Seq<(Address, V)>, k: Address)
    ensures
        entries_map(entries).contains_key(k) <==> exists|j: int|
            0 <= j < entries.len() && (#[trigger] entries[j]).0 == k,
    decreases entries.len(),
{
    if entries.len() > 0 {
        let rest = entries.drop_last();
        lemma_entries_map_keys(rest, k);
        if entries_map(entries).contains_key(k) && k != entries.last().0 {
            let j = choose|j: int| 0 <= j < rest.len() && (#[trigger] rest[j]).0 == k;
            assert(entries[j] == rest[j]);
        }
        if exists|j: int| 0 <= j < entries.len() && (#[trigger] entries[j]).0 == k {
            let j = choose|j: int| 0 <= j < entries.len() && (#[trigger] entries[j]).0 == k;
            if j < entries.len() - 1 {
                assert(rest[j] == entries[j]);
            }
        }
    }
}

/// Each value of `entries_map(entries)` is that of an entry with its key.
pub proof fn lemma_entries_map_values<V>(entries: Seq<(Address, V)>, k: Address)
    requires
        entries_map(entries).contains_key(k),
    ensures
        exists|j: int|
            0 <= j < entries.len() && (#[trigger] entries[j]).0 == k && entries[j].1 == entries_map(
                entries,
            )[k],
    decreases entries.len(),
{
    let rest = entries.drop_last();
    if k == entries.last().0 {
        assert(entries[entries.len() - 1] == entries.last());
    } else {
        lemma_entries_map_values(rest, k);
        let j = choose|j: int|
            0 <= j < rest.len() && (#[trigger] rest[j]).0 == k && rest[j].1 == entries_map(rest)[k];
        assert(entries[j] == rest[j]);
    }
}

impl<V> AddressBook<V> {
    /// Keys and values pair up one to one and no key occurs twice.
    pub closed spec fn wf(&self) -> bool {
        &&& self.keys.len() == self.values.len()
        &&& self.keys@.no_duplicates()
    }

    proof fn lemma_entry(&self, i: int)
        requires
            self.wf(),
            0 <= i < self.keys.len(),
        ensures
            self@.contains_key(self.keys@[i]),
            self@[self.keys@[i]] == self.values@[i],
    {
        let k = self.keys@[i];
        assert(self.keys@.contains(k));
        let j = self.keys@.index_of(k);
        assert(0 <= j < self.keys.len() && self.keys@[j] == k);
    }

    /// An empty book.
    pub fn new() -> (book: Self)
        ensures
            book.wf(),
            book@ == Map::<Address, V>::empty(),
    {
        let book = AddressBook { keys: Vec::new(), values: Vec::new() };
        assert(book@ =~= Map::<Address, V>::empty());
        book
    }

    /// The position of `key` among the keys, if it is there.
    fn find(&self, key: &Address) -> (pos: Option<usize>)
        requires
            self.wf(),
        ensures
            match pos {
                Some(i) => i < self.keys.len() && self.keys@[i as int] == *key,
                None => !self@.contains_key(*key),
            },
    {
        let mut i: usize = 0;
        while i < self.keys.len()
            invariant
                i <= self.keys.len(),
                forall|j: int| 0 <= j < i ==> self.keys@[j] != *key,
            decreases self.keys.len() - i,
        {
            if self.keys[i] == *key {
                return Some(i);
            }
            i += 1;
        }
        None
    }

    /// The value stored under `key`, if any.
    pub fn get(&self, key: &Address) -> (value: Option<&V>)
        requires
            self.wf(),
        ensures
            value == (if self@.contains_key(*key) {
                Some(&self@[*key])
            } else {
                None
            }),
    {
        match self.find(key) {
            Some(i) => {
                proof {
                    self.lemma_entry(i as int);
                }
                Some(&self.values[i])
            },
            None => None,
        }
    }

    /// Stores `value` under `key`, replacing what was there.
    pub fn insert(&mut self, key: Address, value: V)
        requires
            old(self).wf(),
        ensures
            final(self).wf(),
            final(self)@ == old(self)@.insert(key, value),
    {
        match self.find(&key) {
            Some(i) => {
                self.values.set(i, value);
                proof {
                    assert forall|k: Address| #[trigger] self@.contains_key(k) implies self@[k]
                        == old(self)@.insert(key, value)[k] by {
                        let j = self.keys@.index_of(k);
                        assert(self.keys@.contains(k));
                        assert(0 <= j < self.keys.len() && self.keys@[j] == k);
                        if k == key {
                            assert(j == i);
                        } else {
                            old(self).lemma_entry(j);
                        }
                    }
                    assert(self@ =~= old(self)@.insert(key, value));
                }
            },
            None => {
                self.keys.push(key);
                self.values.push(value);
                proof {
                    let n = old(self).keys.len() as int;
                    assert(self.keys@.no_duplicates()) by {
                        assert forall|a: int, b: int|
                            0 <= a < self.keys.len() && 0 <= b < self.keys.len() && a != b
                            implies self.keys@[a] != self.keys@[b] by {
                            if a == n {
                                assert(old(self).keys@[b] == self.keys@[b]);
                            } else if b == n {
                                assert(old(self).keys@[a] == self.keys@[a]);
                            }
                        }
                    }
                    assert forall|k: Address| #[trigger] self@.contains_key(k) implies self@[k]
                        == old(self)@.insert(key, value)[k] by {
                        let j = self.keys@.index_of(k);
                        assert(self.keys@.contains(k));
                        assert(0 <= j < self.keys.len() && self.keys@[j] == k);
                        if k == key {
                            self.lemma_entry(n);
                        } else {
                            assert(j < n);
                            assert(old(self).keys@[j] == k);
                            old(self).lemma_entry(j);
                        }
                    }
                    assert forall|k: Address| #[trigger] old(self)@.contains_key(k) implies self@.contains_key(k) by {
                        let j = old(self).keys@.index_of(k);
                        assert(old(self).keys@.contains(k));
                        assert(self.keys@[j] == k);
                    }
                    assert(self.keys@[n] == key);
                    assert(self@ =~= old(self)@.insert(key, value));
                }
            },
        }
    }

    /// Takes the value stored under `key` out of the book.
    pub fn remove(&mut self, key: &Address) -> (value: Option<V>)
        requires
            old(self).wf(),
        ensures
            final(self).wf(),
            final(self)@ == old(self)@.remove(*key),
            value == (if old(self)@.contains_key(*key) {
                Some(old(self)@[*key])
            } else {
                None
            }),
    {
        match self.find(key) {
            Some(i) => {
                proof {
                    self.lemma_entry(i as int);
                }
                self.keys.remove(i);
                let value = self.values.remove(i);
                proof {
                    let ok = old(self).keys@;
                    assert(forall|j: int| 0 <= j < self.keys.len() ==> #[trigger] self.keys@[j] == (
                    if j < i { ok[j] } else { ok[j + 1] }));
                    assert forall|k: Address| #[trigger] self@.contains_key(k) implies self@[k]
                        == old(self)@.remove(*key)[k] && k != *key && old(self)@.contains_key(k) by {
                        let j = self.keys@.index_of(k);
                        assert(self.keys@.contains(k));
                        assert(0 <= j < self.keys.len() && self.keys@[j] == k);
                        if j < i {
                            old(self).lemma_entry(j);
                        } else {
                            old(self).lemma_entry(j + 1);
                        }
                    }
                    assert forall|k: Address| #[trigger] old(self)@.contains_key(k) && k != *key
                        implies self@.contains_key(k) by {
                        let j = ok.index_of(k);
                        assert(ok.contains(k));
                        assert(0 <= j < ok.len() && ok[j] == k);
                        assert(j != i);
                        if j < i {
                            assert(self.keys@[j] == k);
                        } else {
                            assert(self.keys@[j - 1] == k);
                        }
                    }
                    assert(self@ =~= old(self)@.remove(*key));
                }
                Some(value)
            },
            None => {
                assert(self@ =~= old(self)@.remove(*key));
                None
            },
        }
    }
}

impl<V> AddressBook<V> {
    /// The book holding `entries`, or `None` when a key occurs twice.
    pub fn from_entries(entries: Vec<(Address, V)>) -> (book: Option<AddressBook<V>>)
        ensures
            book matches Some(b) ==> b.wf() && b@ == entries_map(entries@),
            book is Some <==> keys_distinct(entries@),
    {
        let ghost all = entries@;
        let total: usize = entries.len();
        let mut rest = entries;
        let mut book = AddressBook::new();
        let mut i: usize = 0;
        while rest.len() > 0
            invariant
                book.wf(),
                i + rest.len() == all.len(),
                all.len() == total,
                all == entries@,
                rest@ == all.skip(i as int),
                book@ == entries_map(all.take(i as int)),
                keys_distinct(all.take(i as int)),
            decreases rest.len(),
        {
            let (key, value) = rest.remove(0);
            assert(all[i as int] == (key, value)) by {
                assert(all.skip(i as int)[0] == all[i as int]);
            }
            proof {
                lemma_entries_map_keys(all.take(i as int), key);
            }
            if book.get(&key).is_some() {
                proof {
                    let j = choose|j: int|
                        0 <= j < all.take(i as int).len() && (#[trigger] all.take(i as int)[j]).0 == key;
                    assert(all[j].0 == all[i as int].0);
                    assert(0 <= j < i < all.len());
                    assert(!keys_distinct(all));
                }
                return None;
            }
            book.insert(key, value);
            proof {
                assert(all.take(i + 1).drop_last() =~= all.take(i as int));
                assert(all.take(i + 1).last() == all[i as int]);
                let grown = all.take(i + 1);
                assert forall|a: int, b: int| 0 <= a < b < grown.len() implies (#[trigger] grown[a]).0
                    != (#[trigger] grown[b]).0 by {
                    if b == i {
                        if grown[a].0 == key {
                            assert(all.take(i as int)[a].0 == key);
                        }
                    } else {
                        assert(all.take(i as int)[a] == all[a]);
                        assert(all.take(i as int)[b] == all[b]);
                    }
                }
                assert(rest@ =~= all.skip(i + 1));
            }
            i = i + 1;
        }
        proof {
            assert(all.take(i as int) =~= all);
        }
        Some(book)
    }
}

} // verus!
