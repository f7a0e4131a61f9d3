//! A map that keeps the insertion index of each key and finds a value by key or by that index.

use vstd::prelude::*;

verus! {

/// A key of an [`IndexedMap`]: two keys are the same key when their views are equal.
pub trait IndexKey: View + Sized {
    /// Whether `self` and `other` are the same key.
    fn key_eq(&self, other: &Self) -> (b: bool)
        ensures b == (self@ == other@);
}

impl IndexKey for u64 {
    fn key_eq(&self, other: &Self) -> (b: bool) {
        *self == *other
    }
}

impl IndexKey for String {
    fn key_eq(&self, other: &Self) -> (b: bool) {
        *self == *other
    }
}

/// The key stored with a value inside an [`IndexedMap`].
pub struct KeyItem<K>(pub K);

/// A value stored inside an [`IndexedMap`], with its key and its insertion index.
pub struct IndexedValue<K, V> {
    /// The value
    pub value: V,
    /// The key of the value
    pub key_map_index: KeyItem<K>,
    /// The insertion index of the key
    pub index_map_index: usize,
}

/// An entry of the model of an [`IndexedMap`]: insertion index, key, value.
pub type MapEntry<KV, V> = (usize, KV, V);

/// The position in `s` of the entry with key `k`, if there is one.
pub open spec fn key_pos<KV, V>(s: Seq<MapEntry<KV, V>>, k: KV) -> Option<int> {
    if exists|i: int| 0 <= i < s.len() && #[trigger] s[i].1 == k {
        Some(choose|i: int| 0 <= i < s.len() && #[trigger] s[i].1 == k)
    } else {
        None
    }
}

/// The position in `s` of the entry with insertion index `index`, if there is one.
pub open spec fn index_pos<KV, V>(s: Seq<MapEntry<KV, V>>, index: usize) -> Option<int> {
    if exists|i: int| 0 <= i < s.len() && #[trigger] s[i].0 == index {
        Some(choose|i: int| 0 <= i < s.len() && #[trigger] s[i].0 == index)
    } else {
        None
    }
}

/// Entries whose keys are distinct and whose insertion indices grow strictly and stay below
/// `next`.
pub open spec fn entries_wf<KV, V>(s: Seq<MapEntry<KV, V>>, next: usize) -> bool {
    &&& forall|i: int, j: int| 0 <= i < j < s.len() ==> #[trigger] s[i].0 < #[trigger] s[j].0
    &&& forall|i: int, j: int| 0 <= i < j < s.len() ==> #[trigger] s[i].1 != #[trigger] s[j].1
    &&& forall|i: int| 0 <= i < s.len() ==> #[trigger] s[i].0 < next
}

/// The entries after inserting `v` at `k`: an existing key keeps its place and its index and
/// takes the new value; a new key goes last, with the insertion index `next`.
pub open spec fn spec_insert<KV, V>(s: Seq<MapEntry<KV, V>>, next: usize, k: KV, v: V) -> Seq<MapEntry<KV, V>> {
    match key_pos(s, k) {
        Some(i) => s.update(i, (s[i].0, k, v)),
        None => s.push((next, k, v)),
    }
}

/// The entries and the next insertion index after inserting each pair of `items` in turn.
pub open spec fn spec_extend<KV, V>(s: Seq<MapEntry<KV, V>>, next: usize, items: Seq<(KV, V)>)
    -> (Seq<MapEntry<KV, V>>, usize)
    decreases items.len(),
{
    if items.len() == 0 {
        (s, next)
    } else {
        let (s1, n1) = spec_extend(s, next, items.drop_last());
        let (k, v) = items.last();
        (spec_insert(s1, n1, k, v), if key_pos(s1, k) is Some { n1 } else { (n1 + 1) as usize })
    }
}

/// Inserting pairs in turn moves the next insertion index by at most their number.
pub proof fn lemma_extend_next<KV, V>(s: Seq<MapEntry<KV, V>>, next: usize, items: Seq<(KV, V)>)
    requires next + items.len() < usize::MAX,
    ensures next <= spec_extend(s, next, items).1 <= next + items.len(),
    decreases items.len(),
{
    if items.len() > 0 {
        lemma_extend_next(s, next, items.drop_last());
    }
}

/// Changing the value of an entry keeps the entries well formed.
pub proof fn lemma_wf_new_value<KV, V>(s: Seq<MapEntry<KV, V>>, next: usize, i: int)
    requires entries_wf(s, next), 0 <= i < s.len(),
    ensures forall|v: V| #[trigger] entries_wf(s.update(i, (s[i].0, s[i].1, v)), next),
{
    assert forall|v: V| #[trigger] entries_wf(s.update(i, (s[i].0, s[i].1, v)), next) by {
        let t = s.update(i, (s[i].0, s[i].1, v));
        assert forall|a: int, b: int| 0 <= a < b < t.len() implies #[trigger] t[a].0 < #[trigger] t[b].0 by {
            assert(t[a].0 == s[a].0 && t[b].0 == s[b].0);
        }
        assert forall|a: int, b: int| 0 <= a < b < t.len() implies #[trigger] t[a].1 != #[trigger] t[b].1 by {
            assert(t[a].1 == s[a].1 && t[b].1 == s[b].1);
        }
        assert forall|a: int| 0 <= a < t.len() implies #[trigger] t[a].0 < next by {
            assert(t[a].0 == s[a].0);
        }
    }
}

/// In well-formed entries, a key is found at the one position that holds it.
pub proof fn lemma_key_pos<KV, V>(s: Seq<MapEntry<KV, V>>, next: usize, k: KV, i: int)
    requires entries_wf(s, next), 0 <= i < s.len(), s[i].1 == k,
    ensures key_pos(s, k) == Some(i),
{
    let j = choose|j: int| 0 <= j < s.len() && #[trigger] s[j].1 == k;
    if j != i {
        if j < i {
            assert(s[j].1 != s[i].1);
        } else {
            assert(s[i].1 != s[j].1);
        }
    }
}

/// In well-formed entries, an insertion index is found at the one position that holds it.
pub proof fn lemma_index_pos<KV, V>(s: Seq<MapEntry<KV, V>>, next: usize, index: usize, i: int)
    requires entries_wf(s, next), 0 <= i < s.len(), s[i].0 == index,
    ensures index_pos(s, index) == Some(i),
{
    let j = choose|j: int| 0 <= j < s.len() && #[trigger] s[j].0 == index;
    if j != i {
        if j < i {
            assert(s[j].0 < s[i].0);
        } else {
            assert(s[i].0 < s[j].0);
        }
    }
}

/// Inserting `v` at `k` and then looking `k` up finds `v`, under the insertion index that `k`
/// had, or under `next` when `k` was new; every other key is found where it was, with its
/// value; every entry keeps its place, its key and its index; and the entries stay well formed.
pub proof fn lemma_insert_get<KV, V>(s: Seq<MapEntry<KV, V>>, next: usize, k: KV, v: V, other: KV)
    requires entries_wf(s, next), next < usize::MAX,
    ensures
        ({
            let t = spec_insert(s, next, k, v);
            let next2: usize = if key_pos(s, k) is Some { next } else { (next + 1) as usize };
            &&& entries_wf(t, next2)
            &&& key_pos(t, k) matches Some(i) && t[i].2 == v
                && t[i].0 == (match key_pos(s, k) { Some(j) => s[j].0, None => next })
            &&& other != k ==> key_pos(t, other) == key_pos(s, other)
            &&& other != k && key_pos(s, other) is Some ==> t[key_pos(s, other)->0] == s[key_pos(s, other)->0]
            &&& forall|j: int| 0 <= j < s.len() ==> (#[trigger] t[j]).0 == s[j].0 && t[j].1 == s[j].1
        }),
{
    let t = spec_insert(s, next, k, v);
    let next2: usize = if key_pos(s, k) is Some { next } else { (next + 1) as usize };
    match key_pos(s, k) {
        Some(i) => {
            assert(s[i].1 == k);
            assert(entries_wf(t, next2));
            lemma_key_pos(t, next2, k, i);
            if other != k {
                match key_pos(s, other) {
                    Some(j) => {
                        assert(s[j].1 == other);
                        lemma_key_pos(t, next2, other, j);
                    },
                    None => {
                        if exists|j: int| 0 <= j < t.len() && #[trigger] t[j].1 == other {
                            let j = choose|j: int| 0 <= j < t.len() && #[trigger] t[j].1 == other;
                            assert(s[j].1 == other);
                        }
                    },
                }
            }
        },
        None => {
            assert forall|j: int| 0 <= j < s.len() implies #[trigger] s[j].1 != k by {
                if s[j].1 == k {
                    assert(exists|i: int| 0 <= i < s.len() && #[trigger] s[i].1 == k);
                }
            }
            assert(entries_wf(t, next2));
            lemma_key_pos(t, next2, k, s.len() as int);
            if other != k {
                match key_pos(s, other) {
                    Some(j) => {
                        assert(s[j].1 == other);
                        lemma_key_pos(t, next2, other, j);
                    },
                    None => {
                        if exists|j: int| 0 <= j < t.len() && #[trigger] t[j].1 == other {
                            let j = choose|j: int| 0 <= j < t.len() && #[trigger] t[j].1 == other;
                            assert(j < s.len());
                            assert(s[j].1 == other);
                        }
                    },
                }
            }
        },
    }
}

/// Inserting a new key and then removing it gives back the entries as they were; what is
/// removed holds the insertion index `next`, the key and the value.
pub proof fn lemma_insert_remove<KV, V>(s: Seq<MapEntry<KV, V>>, next: usize, k: KV, v: V)
    requires entries_wf(s, next), next < usize::MAX, key_pos(s, k) is None,
    ensures
        key_pos(spec_insert(s, next, k, v), k) == Some(s.len() as int),
        spec_insert(s, next, k, v)[s.len() as int] == (next, k, v),
        spec_insert(s, next, k, v).remove(s.len() as int) == s,
{
    lemma_insert_get(s, next, k, v, k);
    assert(spec_insert(s, next, k, v).remove(s.len() as int) =~= s);
}

/// A hashmap that stores insertion index and allows retrieval by key or insertion index.
///
/// The entries are kept in insertion order. A key that is inserted again keeps its place and
/// its index; a new key gets the next insertion index, which no other key has had.
pub struct IndexedMap<K, V> {
    store: Vec<IndexedValue<K, V>>,
    next_index: usize,
}

impl<K: IndexKey, V> IndexedMap<K, V> {
    /// The entries, in insertion order: insertion index, key, value.
    pub closed spec fn entries(&self) -> Seq<MapEntry<K::V, V>> {
        self.store@.map_values(|e: IndexedValue<K, V>| (e.index_map_index, e.key_map_index.0@, e.value))
    }

    /// The insertion index that the next new key gets.
    pub closed spec fn next_index(&self) -> usize {
        self.next_index
    }

    /// Whether the entries have distinct keys and growing insertion indices below the next one.
    pub open spec fn wf(&self) -> bool {
        entries_wf(self.entries(), self.next_index())
    }

    /// Create a new instance of [`IndexedMap`]
    pub fn new() -> (m: Self)
        ensures m.wf(), m.entries() == Seq::<MapEntry<K::V, V>>::empty(), m.next_index() == 0,
    {
        let m = IndexedMap { store: Vec::new(), next_index: 0 };
        assert(m.entries() =~= Seq::<MapEntry<K::V, V>>::empty());
        m
    }

    /// Create a new instance of [`IndexedMap`] with a preallocated capacity
    pub fn with_capacity(capacity: usize) -> (m: Self)
        ensures m.wf(), m.entries() == Seq::<MapEntry<K::V, V>>::empty(), m.next_index() == 0,
    {
        let m = IndexedMap { store: Vec::with_capacity(capacity), next_index: 0 };
        assert(m.entries() =~= Seq::<MapEntry<K::V, V>>::empty());
        m
    }

    /// Inserts a value at a given key, if the key already exists
    /// replaces existing value.
    pub fn insert(&mut self, key: K, value: V)
        requires old(self).wf(), old(self).next_index() < usize::MAX,
        ensures
            final(self).wf(),
            final(self).entries() == spec_insert(old(self).entries(), old(self).next_index(), key@, value),
            final(self).next_index() == if key_pos(old(self).entries(), key@) is Some {
                old(self).next_index()
            } else {
                (old(self).next_index() + 1) as usize
            },
    {
        match self.find_key(&key) {
            Some(i) => {
                let ghost e0 = self.entries();
                self.store[i].value = value;
                proof {
                    assert(self.entries() =~= e0.update(i as int, (e0[i as int].0, key@, value)));
                }
            },
            None => {
                let ghost e0 = self.entries();
                let index = self.next_index;
                let ghost kv = key@;
                self.store.push(IndexedValue { value, key_map_index: KeyItem(key), index_map_index: index });
                self.next_index = index + 1;
                proof {
                    assert(self.entries() =~= e0.push((index, kv, value)));
                    assert forall|j: int| 0 <= j < e0.len() implies #[trigger] e0[j].1 != kv by {
                        if e0[j].1 == kv {
                            assert(exists|i: int| 0 <= i < e0.len() && #[trigger] e0[i].1 == kv);
                        }
                    }
                }
            },
        }
    }

    /// Creates a map of the pairs of `items`, inserted in turn.
    pub fn from_iter(items: Vec<(K, V)>) -> (m: Self)
        requires items@.len() < usize::MAX,
        ensures
            m.wf(),
            (m.entries(), m.next_index()) == spec_extend(Seq::<MapEntry<K::V, V>>::empty(), 0,
                items@.map_values(|p: (K, V)| (p.0@, p.1))),
    {
        let mut m = Self::new();
        m.extend(items);
        m
    }

    /// Inserts each pair of `items` in turn.
    pub fn extend(&mut self, items: Vec<(K, V)>)
        requires old(self).wf(), old(self).next_index() + items@.len() < usize::MAX,
        ensures
            final(self).wf(),
            (final(self).entries(), final(self).next_index()) == spec_extend(old(self).entries(),
                old(self).next_index(), items@.map_values(|p: (K, V)| (p.0@, p.1))),
    {
        let ghost s0 = self.entries();
        let ghost n0 = self.next_index();
        let ghost all = items@.map_values(|p: (K, V)| (p.0@, p.1));
        let mut items = items;
        let ghost items0 = items@;
        let mut i: usize = 0;
        assert(all.take(0) =~= Seq::<(K::V, V)>::empty());
        assert(items0.skip(0) =~= items0);
        while items.len() > 0
            invariant
                self.wf(),
                i + items@.len() == items0.len(),
                all == items0.map_values(|p: (K, V)| (p.0@, p.1)),
                items@ == items0.skip(i as int),
                (self.entries(), self.next_index()) == spec_extend(s0, n0, all.take(i as int)),
                n0 + items0.len() < usize::MAX,
            decreases items.len(),
        {
            let ghost before = items@;
            let (key, value) = items.remove(0);
            proof {
                lemma_extend_next(s0, n0, all.take(i as int));
                assert(all.take(i + 1).drop_last() =~= all.take(i as int));
                assert(before[0] == items0[i as int]);
                assert(items@ =~= items0.skip(i + 1));
            }
            self.insert(key, value);
            i = i + 1;
        }
        assert(all.take(i as int) =~= all);
    }

    /// Gets a reference for a value associated with the given key
    ///
    /// If there is no value associated with a given key, `None` is returned
    pub fn get_by_key(&self, key: &K) -> (r: Option<&V>)
        requires self.wf(),
        ensures
            r == match key_pos(self.entries(), key@) {
                Some(i) => Some(&self.entries()[i].2),
                None => None,
            },
    {
        match self.find_key(key) {
            Some(i) => Some(&self.store[i].value),
            None => None,
        }
    }

    /// Gets a mutable reference for a value associated with the given key
    ///
    /// If there is no value associated with a given key, `None` is returned.
    pub fn get_by_key_mut(&mut self, key: &K) -> (r: Option<&mut V>)
        requires old(self).wf(),
        ensures
            match key_pos(old(self).entries(), key@) {
                Some(i) => r matches Some(v) && *v == old(self).entries()[i].2
                    && final(self).entries() == old(self).entries().update(i,
                        (old(self).entries()[i].0, old(self).entries()[i].1, *final(v))),
                None => r is None && final(self).entries() == old(self).entries(),
            },
            final(self).next_index() == old(self).next_index(),
            final(self).wf(),
    {
        match self.find_key(key) {
            Some(i) => {
                proof { lemma_wf_new_value(self.entries(), self.next_index, i as int); }
                let r = &mut self.store[i].value;
                Some(r)
            },
            None => None,
        }
    }

    /// Gets a reference for a value associated with the given insertion index
    ///
    /// If there is no value associated with a given insertion index, `None` is returned.
    pub fn get_by_index(&self, index: usize) -> (r: Option<&V>)
        requires self.wf(),
        ensures
            r == match index_pos(self.entries(), index) {
                Some(i) => Some(&self.entries()[i].2),
                None => None,
            },
    {
        match self.find_index(index) {
            Some(i) => Some(&self.store[i].value),
            None => None,
        }
    }

    /// Gets a mutable reference for a value associated with the given insertion index
    ///
    /// If there is no value associated with a given insertion index, 'None' is returned.
    pub fn get_by_index_mut(&mut self, index: usize) -> (r: Option<&mut V>)
        requires old(self).wf(),
        ensures
            match index_pos(old(self).entries(), index) {
                Some(i) => r matches Some(v) && *v == old(self).entries()[i].2
                    && final(self).entries() == old(self).entries().update(i,
                        (old(self).entries()[i].0, old(self).entries()[i].1, *final(v))),
                None => r is None && final(self).entries() == old(self).entries(),
            },
            final(self).next_index() == old(self).next_index(),
            final(self).wf(),
    {
        match self.find_index(index) {
            Some(i) => {
                proof { lemma_wf_new_value(self.entries(), self.next_index, i as int); }
                Some(&mut self.store[i].value)
            },
            None => None,
        }
    }

    /// The values of the map, in insertion index order.
    pub fn values(&self) -> (r: Vec<&V>)
        ensures
            r@.len() == self.entries().len(),
            forall|i: int| 0 <= i < r@.len() ==> *#[trigger] r@[i] == self.entries()[i].2,
    {
        let mut r: Vec<&V> = Vec::new();
        let mut i: usize = 0;
        while i < self.store.len()
            invariant
                i <= self.store.len(),
                r@.len() == i,
                forall|j: int| 0 <= j < i ==> *#[trigger] r@[j] == self.entries()[j].2,
            decreases self.store.len() - i,
        {
            r.push(&self.store[i].value);
            i = i + 1;
        }
        r
    }

    /// The keys of the map, in insertion index order.
    pub fn keys(&self) -> (r: Vec<&K>)
        ensures
            r@.len() == self.entries().len(),
            forall|i: int| 0 <= i < r@.len() ==> (#[trigger] r@[i])@ == self.entries()[i].1,
    {
        let mut r: Vec<&K> = Vec::new();
        let mut i: usize = 0;
        while i < self.store.len()
            invariant
                i <= self.store.len(),
                r@.len() == i,
                forall|j: int| 0 <= j < i ==> (#[trigger] r@[j])@ == self.entries()[j].1,
            decreases self.store.len() - i,
        {
            r.push(&self.store[i].key_map_index.0);
            i = i + 1;
        }
        r
    }

    /// The entries of the map in the insertion index order: index, key and value.
    pub fn iter(&self) -> (r: Vec<(usize, &K, &V)>)
        ensures
            r@.len() == self.entries().len(),
            forall|i: int| 0 <= i < r@.len() ==>
                ((#[trigger] r@[i]).0, r@[i].1@, *r@[i].2) == self.entries()[i],
    {
        let mut r: Vec<(usize, &K, &V)> = Vec::new();
        let mut i: usize = 0;
        while i < self.store.len()
            invariant
                i <= self.store.len(),
                r@.len() == i,
                forall|j: int| 0 <= j < i ==>
                    ((#[trigger] r@[j]).0, r@[j].1@, *r@[j].2) == self.entries()[j],
            decreases self.store.len() - i,
        {
            let e = &self.store[i];
            r.push((e.index_map_index, &e.key_map_index.0, &e.value));
            i = i + 1;
        }
        r
    }

    /// The entries of the map in the order of its key lookup: index, key and value. Keys are
    /// looked up in insertion order, so this is the order of [`IndexedMap::iter`].
    pub fn iter_key(&self) -> (r: Vec<(usize, &K, &V)>)
        ensures
            r@.len() == self.entries().len(),
            forall|i: int| 0 <= i < r@.len() ==>
                ((#[trigger] r@[i]).0, r@[i].1@, *r@[i].2) == self.entries()[i],
    {
        self.iter()
    }

    /// Returns the number of elements in a map
    pub fn len(&self) -> (n: usize)
        ensures n == self.entries().len(),
    {
        self.store.len()
    }

    /// Checks if a given key exists in a map
    pub fn contains_key(&self, key: &K) -> (b: bool)
        requires self.wf(),
        ensures b == key_pos(self.entries(), key@) is Some,
    {
        self.find_key(key).is_some()
    }

    /// Checks if a given insertion index exists in a map
    pub fn contains_index(&self, index: usize) -> (b: bool)
        requires self.wf(),
        ensures b == index_pos(self.entries(), index) is Some,
    {
        self.find_index(index).is_some()
    }

    /// Removes the entry at position `i`, giving back its index, key and value.
    fn remove_at(&mut self, i: usize) -> (r: (usize, K, V))
        requires old(self).wf(), i < old(self).entries().len(),
        ensures
            final(self).wf(),
            final(self).next_index() == old(self).next_index(),
            final(self).entries() == old(self).entries().remove(i as int),
            (r.0, r.1@, r.2) == old(self).entries()[i as int],
    {
        let ghost e0 = self.entries();
        let e = self.store.remove(i);
        proof {
            assert(self.entries() =~= e0.remove(i as int));
        }
        let KeyItem(key) = e.key_map_index;
        (e.index_map_index, key, e.value)
    }

    /// Removes a value by index
    /// If the value existed in a map, the Some((index, key, value)) triple is returned,
    /// otherwise, None is returned.
    pub fn remove_by_index(&mut self, index: usize) -> (r: Option<(usize, K, V)>)
        requires old(self).wf(),
        ensures
            final(self).wf(),
            final(self).next_index() == old(self).next_index(),
            match index_pos(old(self).entries(), index) {
                Some(i) => r matches Some(t) && (t.0, t.1@, t.2) == old(self).entries()[i]
                    && final(self).entries() == old(self).entries().remove(i),
                None => r is None && final(self).entries() == old(self).entries(),
            },
    {
        match self.find_index(index) {
            Some(i) => Some(self.remove_at(i)),
            None => None,
        }
    }

    /// Removes a value by key
    /// If the value existed in a map, the Some((index, key, value)) triple is returned,
    /// otherwise, None is returned.
    pub fn remove_by_key(&mut self, key: &K) -> (r: Option<(usize, K, V)>)
        requires old(self).wf(),
        ensures
            final(self).wf(),
            final(self).next_index() == old(self).next_index(),
            match key_pos(old(self).entries(), key@) {
                Some(i) => r matches Some(t) && (t.0, t.1@, t.2) == old(self).entries()[i]
                    && final(self).entries() == old(self).entries().remove(i),
                None => r is None && final(self).entries() == old(self).entries(),
            },
    {
        match self.find_key(key) {
            Some(i) => Some(self.remove_at(i)),
            None => None,
        }
    }

    /// The position of the entry with key `key`.
    fn find_key(&self, key: &K) -> (r: Option<usize>)
        requires self.wf(),
        ensures
            match r {
                Some(i) => key_pos(self.entries(), key@) == Some(i as int) && i < self.entries().len(),
                None => key_pos(self.entries(), key@) is None,
            },
    {
        let mut i: usize = 0;
        while i < self.store.len()
            invariant
                i <= self.store.len(),
                self.wf(),
                forall|j: int| 0 <= j < i ==> #[trigger] self.entries()[j].1 != key@,
            decreases self.store.len() - i,
        {
            if self.store[i].key_map_index.0.key_eq(key) {
                proof { lemma_key_pos(self.entries(), self.next_index, key@, i as int); }
                return Some(i);
            }
            i = i + 1;
        }
        None
    }

    /// The position of the entry with insertion index `index`.
    fn find_index(&self, index: usize) -> (r: Option<usize>)
        requires self.wf(),
        ensures
            match r {
                Some(i) => index_pos(self.entries(), index) == Some(i as int) && i < self.entries().len(),
                None => index_pos(self.entries(), index) is None,
            },
    {
        let mut i: usize = 0;
        while i < self.store.len()
            invariant
                i <= self.store.len(),
                self.wf(),
                forall|j: int| 0 <= j < i ==> #[trigger] self.entries()[j].0 != index,
            decreases self.store.len() - i,
        {
            if self.store[i].index_map_index == index {
                proof { lemma_index_pos(self.entries(), self.next_index, index, i as int); }
                return Some(i);
            }
            i = i + 1;
        }
        None
    }
}

} // verus!
