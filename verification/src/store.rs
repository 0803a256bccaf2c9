//! A small keyed store: the owned key-value state that each ledger works on.
//!
//! The store is an association list whose keys are pairwise distinct. Its
//! mathematical model is a finite `Map` from the identity of a key to the
//! value held under it.
use vstd::prelude::*;

verus! {

/// A key of a [`Store`]. Two keys denote the same slot exactly when their
/// identities are equal.
pub trait StoreKey: Sized {
    /// The mathematical identity of a key.
    type Id;

    spec fn id(&self) -> Self::Id;

    /// Decides whether two keys denote the same slot.
    fn same_key(&self, other: &Self) -> (r: bool)
        ensures
            r == (self.id() == other.id()),
    ;
}

/// One key with the value held under it.
struct Entry<K, V> {
    key: K,
    value: V,
}

/// A finite map from keys to values, owned by one ledger.
pub struct Store<K: StoreKey, V> {
    entries: Vec<Entry<K, V>>,
}

/// The map with each value replaced by its view.
pub open spec fn value_views<K, V: View>(m: Map<K, V>) -> Map<K, V::V> {
    Map::new(|k: K| m.contains_key(k), |k: K| m[k]@)
}

/// Whether the entry at position `i` is the one stored under `id`.
spec fn holds_at<K: StoreKey, V>(entries: Seq<Entry<K, V>>, id: K::Id, i: int) -> bool {
    0 <= i < entries.len() && entries[i].key.id() == id
}

impl<K: StoreKey, V> Store<K, V> {
    /// No key occurs twice.
    #[verifier::type_invariant]
    spec fn distinct_keys(&self) -> bool {
        forall|i: int, j: int|
            0 <= i < self.entries@.len() && 0 <= j < self.entries@.len() && i != j
                ==> self.entries@[i].key.id() != self.entries@[j].key.id()
    }

    /// The map that this store stands for.
    pub closed spec fn view(&self) -> Map<K::Id, V> {
        Map::new(
            |id: K::Id| exists|i: int| holds_at(self.entries@, id, i),
            |id: K::Id| self.entries@[choose|i: int| holds_at(self.entries@, id, i)].value,
        )
    }

    /// Number of keys held.
    pub closed spec fn count(&self) -> nat {
        self.entries@.len()
    }

    /// An empty store.
    pub fn new() -> (s: Self)
        ensures
            s@ == Map::<K::Id, V>::empty(),
            s.count() == 0,
    {
        let s = Store { entries: Vec::new() };
        assert(s@ =~= Map::<K::Id, V>::empty());
        s
    }

    /// Position of `key` among the entries, or the number of entries when it is absent.
    fn position(&self, key: &K) -> (i: usize)
        ensures
            i <= self.entries@.len(),
            i < self.entries@.len() ==> self.entries@[i as int].key.id() == key.id(),
            i == self.entries@.len() ==> !self@.contains_key(key.id()),
            i < self.entries@.len() ==> self@.contains_key(key.id()) && self@[key.id()]
                == self.entries@[i as int].value,
    {
        proof {
            use_type_invariant(self);
        }
        let mut i: usize = 0;
        while i < self.entries.len()
            invariant
                i <= self.entries@.len(),
                self.distinct_keys(),
                forall|j: int| 0 <= j < i ==> self.entries@[j].key.id() != key.id(),
            decreases self.entries@.len() - i,
        {
            if self.entries[i].key.same_key(key) {
                assert(holds_at(self.entries@, key.id(), i as int));
                return i;
            }
            i += 1;
        }
        i
    }

    /// Number of keys held.
    pub fn len(&self) -> (n: usize)
        ensures
            n == self.count(),
    {
        self.entries.len()
    }

    /// Whether a value is held under `key`.
    pub fn contains(&self, key: &K) -> (r: bool)
        ensures
            r == self@.contains_key(key.id()),
    {
        self.position(key) < self.entries.len()
    }

    /// The value held under `key`.
    pub fn get(&self, key: &K) -> (r: Option<&V>)
        ensures
            r.is_some() == self@.contains_key(key.id()),
            r.is_some() ==> *r.unwrap() == self@[key.id()],
    {
        let i = self.position(key);
        if i < self.entries.len() {
            Some(&self.entries[i].value)
        } else {
            None
        }
    }

    /// Stores `value` under `key`, replacing what was held there.
    pub fn insert(&mut self, key: K, value: V)
        ensures
            final(self)@ == old(self)@.insert(key.id(), value),
            final(self).count() == old(self).count() + (if old(self)@.contains_key(key.id()) {
                0nat
            } else {
                1nat
            }),
            final(self).count() <= usize::MAX,
    {
        proof {
            use_type_invariant(&*self);
        }
        let i = self.position(&key);
        let ghost before = self.entries@;
        let ghost id = key.id();
        let mut entries: Vec<Entry<K, V>> = Vec::new();
        core::mem::swap(&mut self.entries, &mut entries);
        if i < entries.len() {
            entries[i] = Entry { key, value };
        } else {
            entries.push(Entry { key, value });
        }
        proof {
            vstd::std_specs::vec::axiom_spec_len(&entries);
            assert forall|a: int, b: int|
                0 <= a < entries@.len() && 0 <= b < entries@.len() && a != b implies entries@[a].key.id()
                != entries@[b].key.id() by {
                if a < before.len() && a != i {
                    assert(entries@[a] == before[a]);
                }
                if b < before.len() && b != i {
                    assert(entries@[b] == before[b]);
                }
                if i == before.len() {
                    if a == i {
                        assert(!holds_at(before, id, b));
                    }
                    if b == i {
                        assert(!holds_at(before, id, a));
                    }
                }
            }
        }
        core::mem::swap(&mut self.entries, &mut entries);
        proof {
            let after = self.entries@;
            assert forall|k: K::Id| #[trigger] final(self)@.contains_key(k) == old(self)@.insert(id, value).contains_key(k) by {
                if final(self)@.contains_key(k) {
                    let j = choose|j: int| holds_at(after, k, j);
                    if k != id {
                        assert(holds_at(before, k, j));
                    }
                } else if k == id {
                    assert(holds_at(after, k, i as int));
                } else if old(self)@.contains_key(k) {
                    let j = choose|j: int| holds_at(before, k, j);
                    assert(holds_at(after, k, j));
                }
            }
            assert forall|k: K::Id| #[trigger] final(self)@.contains_key(k) implies final(self)@[k] == old(self)@.insert(id, value)[k] by {
                let j = choose|j: int| holds_at(after, k, j);
                if k == id {
                    assert(holds_at(after, k, i as int));
                } else {
                    assert(holds_at(before, k, j));
                    let j0 = choose|j0: int| holds_at(before, k, j0);
                    assert(j0 == j);
                }
            }
            assert(final(self)@ =~= old(self)@.insert(id, value));
        }
    }

    /// Removes whatever is held under `key`.
    pub fn remove(&mut self, key: &K)
        ensures
            final(self)@ == old(self)@.remove(key.id()),
            final(self).count() == old(self).count() - (if old(self)@.contains_key(key.id()) {
                1nat
            } else {
                0nat
            }),
    {
        proof {
            use_type_invariant(&*self);
        }
        let i = self.position(key);
        let ghost before = self.entries@;
        let ghost id = key.id();
        if i < self.entries.len() {
            let mut entries: Vec<Entry<K, V>> = Vec::new();
            core::mem::swap(&mut self.entries, &mut entries);
            entries.remove(i);
            proof {
                assert forall|a: int, b: int|
                    0 <= a < entries@.len() && 0 <= b < entries@.len() && a != b implies entries@[a].key.id()
                    != entries@[b].key.id() by {
                    let a0 = if a < i { a } else { a + 1 };
                    let b0 = if b < i { b } else { b + 1 };
                    assert(entries@[a] == before[a0]);
                    assert(entries@[b] == before[b0]);
                }
            }
            core::mem::swap(&mut self.entries, &mut entries);
            proof {
                let after = self.entries@;
                assert forall|k: K::Id| #[trigger] final(self)@.contains_key(k) == old(self)@.remove(id).contains_key(k) by {
                    if final(self)@.contains_key(k) {
                        let j = choose|j: int| holds_at(after, k, j);
                        if j < i {
                            assert(holds_at(before, k, j));
                        } else {
                            assert(holds_at(before, k, j + 1));
                        }
                    } else if k != id && old(self)@.contains_key(k) {
                        let j = choose|j: int| holds_at(before, k, j);
                        if j < i {
                            assert(holds_at(after, k, j));
                        } else {
                            assert(holds_at(after, k, j - 1));
                        }
                    }
                }
                assert forall|k: K::Id| #[trigger] final(self)@.contains_key(k) implies final(self)@[k] == old(self)@.remove(id)[k] by {
                    let j = choose|j: int| holds_at(after, k, j);
                    let j0 = choose|j0: int| holds_at(before, k, j0);
                    if j < i {
                        assert(holds_at(before, k, j));
                    } else {
                        assert(holds_at(before, k, j + 1));
                    }
                }
                assert(final(self)@ =~= old(self)@.remove(id));
            }
        } else {
            assert(final(self)@ =~= old(self)@.remove(id));
        }
    }
}

/// What a ledger asks of the storage that it keeps its records in: a finite
/// map that can be read and written one key at a time.
pub trait StorageModule<K: StoreKey, V> {
    /// The map that the storage holds.
    spec fn contents(&self) -> Map<K::Id, V>;

    /// The value held under `key`.
    fn read(&self, key: &K) -> (r: Option<&V>)
        ensures
            r.is_some() == self.contents().contains_key(key.id()),
            r.is_some() ==> *r.unwrap() == self.contents()[key.id()],
    ;

    /// Stores `value` under `key`, replacing what was held there.
    fn write(&mut self, key: K, value: V)
        ensures
            final(self).contents() == old(self).contents().insert(key.id(), value),
    ;

    /// Removes whatever is held under `key`.
    fn clear(&mut self, key: &K)
        ensures
            final(self).contents() == old(self).contents().remove(key.id()),
    ;
}

impl<K: StoreKey, V> StorageModule<K, V> for Store<K, V> {
    open spec fn contents(&self) -> Map<K::Id, V> {
        self@
    }

    fn read(&self, key: &K) -> (r: Option<&V>) {
        self.get(key)
    }

    fn write(&mut self, key: K, value: V) {
        self.insert(key, value)
    }

    fn clear(&mut self, key: &K) {
        self.remove(key)
    }
}

} // verus!
