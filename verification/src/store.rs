//! A keyed store: the map-backed stand-in for an address space of records.

use vstd::prelude::*;
use crate::key::Key;

verus! {

/// The map that a list of bindings stands for: a later binding of a key hides
/// an earlier one.
pub open spec fn bindings<V>(entries: Seq<(Key, V)>) -> Map<Key, V>
    decreases entries.len(),
{
    if entries.len() == 0 {
        Map::empty()
    } else {
        bindings(entries.drop_last()).insert(entries.last().0, entries.last().1)
    }
}

/// `at` is the last place where `key` is bound.
pub open spec fn last_binding<V>(entries: Seq<(Key, V)>, key: Key, at: int) -> bool {
    &&& 0 <= at < entries.len()
    &&& entries[at].0 == key
    &&& forall|j: int| at < j < entries.len() ==> (#[trigger] entries[j]).0 != key
}

/// `key` is bound nowhere.
pub open spec fn unbound<V>(entries: Seq<(Key, V)>, key: Key) -> bool {
    forall|j: int| 0 <= j < entries.len() ==> (#[trigger] entries[j]).0 != key
}

proof fn lemma_bound<V>(entries: Seq<(Key, V)>, key: Key, at: int)
    requires
        last_binding(entries, key, at),
    ensures
        bindings(entries).contains_key(key),
        bindings(entries)[key] == entries[at].1,
    decreases entries.len(),
{
    if at < entries.len() - 1 {
        let front = entries.drop_last();
        assert(entries.last().0 != key);
        assert(last_binding(front, key, at)) by {
            assert forall|j: int| at < j < front.len() implies (#[trigger] front[j]).0 != key by {
                assert(front[j] == entries[j]);
            }
        }
        lemma_bound(front, key, at);
    }
}

proof fn lemma_unbound<V>(entries: Seq<(Key, V)>, key: Key)
    requires
        unbound(entries, key),
    ensures
        !bindings(entries).contains_key(key),
    decreases entries.len(),
{
    if entries.len() > 0 {
        let front = entries.drop_last();
        assert(entries.last().0 != key);
        assert(unbound(front, key)) by {
            assert forall|j: int| 0 <= j < front.len() implies (#[trigger] front[j]).0 != key by {
                assert(front[j] == entries[j]);
            }
        }
        lemma_unbound(front, key);
    }
}

proof fn lemma_rebind<V>(entries: Seq<(Key, V)>, key: Key, at: int, value: V)
    requires
        last_binding(entries, key, at),
    ensures
        bindings(entries.update(at, (key, value))) == bindings(entries).insert(key, value),
    decreases entries.len(),
{
    let after = entries.update(at, (key, value));
    let front = entries.drop_last();
    if at == entries.len() - 1 {
        assert(after.drop_last() =~= front);
        assert(bindings(after) =~= bindings(entries).insert(key, value));
    } else {
        assert(entries.last().0 != key);
        assert(last_binding(front, key, at)) by {
            assert forall|j: int| at < j < front.len() implies (#[trigger] front[j]).0 != key by {
                assert(front[j] == entries[j]);
            }
        }
        lemma_rebind(front, key, at, value);
        assert(after.drop_last() =~= front.update(at, (key, value)));
        assert(after.last() == entries.last());
        assert(bindings(after) =~= bindings(entries).insert(key, value));
    }
}

proof fn lemma_append<V>(entries: Seq<(Key, V)>, key: Key, value: V)
    ensures
        bindings(entries.push((key, value))) == bindings(entries).insert(key, value),
{
    assert(entries.push((key, value)).drop_last() =~= entries);
}

/// Records of one kind, each under the address it lives at.
pub struct Store<V> {
    entries: Vec<(Key, V)>,
}

impl<V> View for Store<V> {
    type V = Map<Key, V>;

    closed spec fn view(&self) -> Map<Key, V> {
        bindings(self.entries@)
    }
}

impl<V: Copy> Store<V> {
    /// A store that holds nothing.
    pub fn new() -> (store: Self)
        ensures
            store@ == Map::<Key, V>::empty(),
    {
        Store { entries: Vec::new() }
    }

    /// Where `key` is bound last, if it is bound.
    fn locate(&self, key: &Key) -> (place: Option<usize>)
        ensures
            match place {
                Some(at) => last_binding(self.entries@, *key, at as int),
                None => unbound(self.entries@, *key),
            },
    {
        let mut i: usize = self.entries.len();
        while i > 0
            invariant
                i <= self.entries.len(),
                forall|j: int| i <= j < self.entries.len() ==> (#[trigger] self.entries@[j]).0 != *key,
            decreases i,
        {
            i -= 1;
            if self.entries[i].0 == *key {
                return Some(i);
            }
        }
        None
    }

    /// The record at `key`, if there is one.
    pub fn get(&self, key: &Key) -> (found: Option<V>)
        ensures
            found == (if self@.contains_key(*key) {
                Some(self@[*key])
            } else {
                None
            }),
    {
        match self.locate(key) {
            Some(at) => {
                proof {
                    lemma_bound(self.entries@, *key, at as int);
                }
                Some(self.entries[at].1)
            },
            None => {
                proof {
                    lemma_unbound(self.entries@, *key);
                }
                None
            },
        }
    }

    /// Whether a record lives at `key`.
    pub fn contains(&self, key: &Key) -> (present: bool)
        ensures
            present == self@.contains_key(*key),
    {
        self.get(key).is_some()
    }

    /// Puts `value` at `key`, in place of what was there.
    pub fn insert(&mut self, key: Key, value: V)
        ensures
            final(self)@ == old(self)@.insert(key, value),
    {
        match self.locate(&key) {
            Some(at) => {
                proof {
                    lemma_rebind(self.entries@, key, at as int, value);
                }
                self.entries.set(at, (key, value));
            },
            None => {
                proof {
                    lemma_append(self.entries@, key, value);
                }
                self.entries.push((key, value));
            },
        }
    }

    /// A second store with the same records.
    pub fn duplicate(&self) -> (copy: Self)
        ensures
            copy@ == self@,
    {
        let mut entries: Vec<(Key, V)> = Vec::new();
        let mut i: usize = 0;
        while i < self.entries.len()
            invariant
                i <= self.entries.len(),
                entries@ == self.entries@.take(i as int),
            decreases self.entries.len() - i,
        {
            entries.push(self.entries[i]);
            assert(self.entries@.take(i + 1) =~= self.entries@.take(i as int).push(self.entries@[i as int]));
            i += 1;
        }
        assert(self.entries@.take(i as int) =~= self.entries@);
        Store { entries }
    }
}

} // verus!
