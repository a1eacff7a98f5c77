//! A table from keys to values, where keys are compared by what they hold.
use vstd::prelude::*;

use crate::options::Content;

verus! {

/// A table from keys to values. Every key stands in it once.
pub struct Table<K: Content, V> {
    entries: Vec<(K, V)>,
}

/// Every key stands once.
spec fn distinct<K: DeepView, V>(entries: Seq<(K, V)>) -> bool {
    forall|i: int, j: int|
        0 <= i < j < entries.len() ==> #[trigger] entries[i].0.deep_view()
            != #[trigger] entries[j].0.deep_view()
}

/// The keys, in the order of the entries.
spec fn keys_of<K: DeepView, V>(entries: Seq<(K, V)>) -> Seq<K::V> {
    Seq::new(entries.len(), |i: int| entries[i].0.deep_view())
}

/// The values by key.
spec fn map_of<K: DeepView, V>(entries: Seq<(K, V)>) -> Map<K::V, V> {
    Map::new(
        |key: K::V| keys_of(entries).contains(key),
        |key: K::V| entries[keys_of(entries).index_of(key)].1,
    )
}

proof fn lemma_entry<K: DeepView, V>(entries: Seq<(K, V)>, i: int)
    requires
        distinct(entries),
        0 <= i < entries.len(),
    ensures
        map_of(entries).dom().contains(entries[i].0.deep_view()),
        map_of(entries)[entries[i].0.deep_view()] == entries[i].1,
{
    let keys = keys_of(entries);
    let key = entries[i].0.deep_view();
    assert(keys[i] == key);
    let j = keys.index_of(key);
    assert(keys[j] == key);
    assert(entries[j].0.deep_view() == key);
}

proof fn lemma_absent<K: DeepView, V>(entries: Seq<(K, V)>, key: K::V)
    requires
        forall|i: int| 0 <= i < entries.len() ==> #[trigger] entries[i].0.deep_view() != key,
    ensures
        !map_of(entries).dom().contains(key),
{
    let keys = keys_of(entries);
    if keys.contains(key) {
        let i = choose|i: int| 0 <= i < keys.len() && keys[i] == key;
        assert(entries[i].0.deep_view() == key);
    }
}

proof fn lemma_len<K: DeepView, V>(entries: Seq<(K, V)>)
    requires
        distinct(entries),
    ensures
        map_of(entries).dom().finite(),
        map_of(entries).len() == entries.len(),
{
    let keys = keys_of(entries);
    assert(keys.no_duplicates()) by {
        assert forall|i: int, j: int|
            0 <= i < keys.len() && 0 <= j < keys.len() && i != j implies keys[i] != keys[j] by {
            assert(entries[i].0.deep_view() == keys[i]);
            assert(entries[j].0.deep_view() == keys[j]);
        }
    }
    keys.unique_seq_to_set();
    assert(map_of(entries).dom() =~= keys.to_set());
}

proof fn lemma_push<K: DeepView, V>(entries: Seq<(K, V)>, entry: (K, V))
    requires
        distinct(entries),
        forall|i: int|
            0 <= i < entries.len() ==> #[trigger] entries[i].0.deep_view() != entry.0.deep_view(),
    ensures
        distinct(entries.push(entry)),
        map_of(entries.push(entry)) == map_of(entries).insert(entry.0.deep_view(), entry.1),
{
    let after = entries.push(entry);
    let expected = map_of(entries).insert(entry.0.deep_view(), entry.1);
    assert(distinct(after));
    assert forall|key: K::V| #[trigger] map_of(after).dom().contains(key) implies expected.dom(
    ).contains(key) && map_of(after)[key] == expected[key] by {
        let i = keys_of(after).index_of(key);
        assert(keys_of(after)[i] == key);
        lemma_entry(after, i);
        if i < entries.len() {
            assert(entries[i] == after[i]);
            lemma_entry(entries, i);
        }
    }
    assert forall|key: K::V| #[trigger] expected.dom().contains(key) implies map_of(
        after,
    ).dom().contains(key) by {
        if key == entry.0.deep_view() {
            lemma_entry(after, entries.len() as int);
        } else {
            let i = keys_of(entries).index_of(key);
            assert(keys_of(entries)[i] == key);
            assert(entries[i] == after[i]);
            lemma_entry(after, i);
        }
    }
    assert(map_of(after) =~= expected);
}

proof fn lemma_remove<K: DeepView, V>(entries: Seq<(K, V)>, i: int)
    requires
        distinct(entries),
        0 <= i < entries.len(),
    ensures
        distinct(entries.remove(i)),
        map_of(entries.remove(i)) == map_of(entries).remove(entries[i].0.deep_view()),
{
    let after = entries.remove(i);
    let expected = map_of(entries).remove(entries[i].0.deep_view());
    assert forall|a: int, b: int| 0 <= a < b < after.len() implies #[trigger] after[
        a
    ].0.deep_view() != #[trigger] after[b].0.deep_view() by {
        let a0 = if a < i { a } else { a + 1 };
        let b0 = if b < i { b } else { b + 1 };
        assert(after[a] == entries[a0] && after[b] == entries[b0]);
    }
    assert forall|key: K::V| #[trigger] map_of(after).dom().contains(key) implies expected.dom(
    ).contains(key) && map_of(after)[key] == expected[key] by {
        let j = keys_of(after).index_of(key);
        assert(keys_of(after)[j] == key);
        let j0 = if j < i { j } else { j + 1 };
        assert(after[j] == entries[j0]);
        lemma_entry(after, j);
        lemma_entry(entries, j0);
    }
    assert forall|key: K::V| #[trigger] expected.dom().contains(key) implies map_of(
        after,
    ).dom().contains(key) by {
        let j = keys_of(entries).index_of(key);
        assert(keys_of(entries)[j] == key);
        let j1 = if j < i { j } else { j - 1 };
        assert(after[j1] == entries[j]);
        lemma_entry(after, j1);
    }
    assert(map_of(after) =~= expected);
}

impl<K: Content, V> View for Table<K, V> {
    type V = Map<K::V, V>;

    closed spec fn view(&self) -> Map<K::V, V> {
        map_of(self.entries@)
    }
}

impl<K: Content, V> Table<K, V> {
    #[verifier::type_invariant]
    closed spec fn type_inv(self) -> bool {
        distinct(self.entries@)
    }

    /// An empty table.
    pub fn new() -> (table: Self)
        ensures
            table@ == Map::<K::V, V>::empty(),
    {
        let table = Table { entries: Vec::new() };
        assert(table@ =~= Map::<K::V, V>::empty());
        table
    }

    /// The place of a key.
    fn find(&self, key: &K) -> (place: Option<usize>)
        ensures
            match place {
                Some(i) => i < self.entries@.len() && self.entries@[i as int].0.deep_view()
                    == key.deep_view(),
                None => forall|i: int|
                    0 <= i < self.entries@.len() ==> #[trigger] self.entries@[i].0.deep_view()
                        != key.deep_view(),
            },
    {
        let mut i: usize = 0;
        while i < self.entries.len()
            invariant
                i <= self.entries@.len(),
                forall|j: int|
                    0 <= j < i ==> #[trigger] self.entries@[j].0.deep_view() != key.deep_view(),
            decreases self.entries@.len() - i,
        {
            if self.entries[i].0.same_content(key) {
                return Some(i);
            }
            i = i + 1;
        }
        None
    }

    /// The number of keys.
    pub fn len(&self) -> (n: usize)
        ensures
            n == self@.len(),
            self@.dom().finite(),
    {
        proof {
            use_type_invariant(self);
            lemma_len(self.entries@);
        }
        self.entries.len()
    }

    /// Whether there is no key.
    pub fn is_empty(&self) -> (empty: bool)
        ensures
            empty == (self@ == Map::<K::V, V>::empty()),
    {
        proof {
            use_type_invariant(self);
            if self.entries@.len() > 0 {
                lemma_entry(self.entries@, 0);
            } else {
                assert(self@ =~= Map::<K::V, V>::empty());
            }
        }
        self.entries.len() == 0
    }

    /// The value of a key.
    pub fn get(&self, key: &K) -> (value: Option<&V>)
        ensures
            match value {
                Some(v) => self@.dom().contains(key.deep_view()) && *v == self@[key.deep_view()],
                None => !self@.dom().contains(key.deep_view()),
            },
    {
        proof {
            use_type_invariant(self);
        }
        match self.find(key) {
            Some(i) => {
                proof {
                    lemma_entry(self.entries@, i as int);
                }
                Some(&self.entries[i].1)
            },
            None => {
                proof {
                    lemma_absent(self.entries@, key.deep_view());
                }
                None
            },
        }
    }

    /// Whether a key has a value.
    pub fn contains_key(&self, key: &K) -> (contains: bool)
        ensures
            contains == self@.dom().contains(key.deep_view()),
    {
        self.get(key).is_some()
    }

    /// Take the value of a key out.
    pub fn remove(&mut self, key: &K) -> (removed: Option<V>)
        ensures
            match removed {
                Some(v) => {
                    &&& old(self)@.dom().contains(key.deep_view())
                    &&& v == old(self)@[key.deep_view()]
                    &&& final(self)@ == old(self)@.remove(key.deep_view())
                },
                None => {
                    &&& !old(self)@.dom().contains(key.deep_view())
                    &&& final(self)@ == old(self)@
                },
            },
    {
        proof {
            use_type_invariant(&*self);
        }
        match self.find(key) {
            Some(i) => {
                proof {
                    lemma_entry(self.entries@, i as int);
                    lemma_remove(self.entries@, i as int);
                }
                let mut entries: Vec<(K, V)> = Vec::new();
                core::mem::swap(&mut entries, &mut self.entries);
                let entry = entries.remove(i);
                self.entries = entries;
                Some(entry.1)
            },
            None => {
                proof {
                    lemma_absent(self.entries@, key.deep_view());
                }
                None
            },
        }
    }

    /// Give a key a value and hand out the one it had.
    pub fn insert(&mut self, key: K, value: V) -> (replaced: Option<V>)
        ensures
            final(self)@ == old(self)@.insert(key.deep_view(), value),
            match replaced {
                Some(v) => old(self)@.dom().contains(key.deep_view()) && v == old(
                    self,
                )@[key.deep_view()],
                None => !old(self)@.dom().contains(key.deep_view()),
            },
    {
        let replaced = self.remove(&key);
        proof {
            use_type_invariant(&*self);
            assert forall|i: int| 0 <= i < self.entries@.len() implies #[trigger] self.entries@[
                i
            ].0.deep_view() != key.deep_view() by {
                lemma_entry(self.entries@, i);
            }
            lemma_push(self.entries@, (key, value));
            assert(old(self)@.remove(key.deep_view()).insert(key.deep_view(), value) =~= old(
                self,
            )@.insert(key.deep_view(), value));
        }
        let mut entries: Vec<(K, V)> = Vec::new();
        core::mem::swap(&mut entries, &mut self.entries);
        entries.push((key, value));
        self.entries = entries;
        replaced
    }

    /// Take every key and value out.
    pub fn drain(&mut self) -> (taken: Vec<(K, V)>)
        ensures
            final(self)@ == Map::<K::V, V>::empty(),
            taken@.len() == old(self)@.len(),
            old(self)@.dom().finite(),
            forall|i: int|
                0 <= i < taken@.len() ==> old(self)@.dom().contains(
                    (#[trigger] taken@[i]).0.deep_view(),
                ) && old(self)@[taken@[i].0.deep_view()] == taken@[i].1,
            forall|i: int, j: int|
                0 <= i < j < taken@.len() ==> (#[trigger] taken@[i]).0.deep_view() != (
                #[trigger] taken@[j]).0.deep_view(),
    {
        proof {
            use_type_invariant(&*self);
            lemma_len(self.entries@);
            assert forall|i: int| 0 <= i < self.entries@.len() implies self@.dom().contains(
                (#[trigger] self.entries@[i]).0.deep_view(),
            ) && self@[self.entries@[i].0.deep_view()] == self.entries@[i].1 by {
                lemma_entry(self.entries@, i);
            }
        }
        let mut entries: Vec<(K, V)> = Vec::new();
        core::mem::swap(&mut entries, &mut self.entries);
        assert(self@ =~= Map::<K::V, V>::empty());
        entries
    }
}

} // verus!
