//! A map that remembers the order in which its keys came.

use vstd::prelude::*;

verus! {

/// A type whose values can be told apart by their views.
pub trait Key: View + Sized {
    /// Whether two keys are the same.
    fn same(&self, other: &Self) -> (res: bool)
        ensures
            res == (self@ == other@),
    ;
}

impl Key for String {
    fn same(&self, other: &Self) -> (res: bool) {
        *self == *other
    }
}

/// What an ordered map holds: its keys in the order in which they came, and their values.
#[verifier::ext_equal]
#[verifier::reject_recursive_types(K)]
pub struct OrderedMapView<K, V> {
    pub keys: Seq<K>,
    pub map: Map<K, V>,
}

impl<K, V> OrderedMapView<K, V> {
    /// The map that holds nothing.
    pub open spec fn empty() -> Self {
        OrderedMapView { keys: Seq::empty(), map: Map::empty() }
    }

    /// No key occurs twice, and the keys with a value are those that came.
    pub open spec fn wf(self) -> bool {
        &&& self.keys.no_duplicates()
        &&& forall|key: K| self.keys.contains(key) <==> #[trigger] self.map.contains_key(key)
    }

    /// The map with a value for `key`: a new key comes last, a known one keeps its place.
    pub open spec fn insert(self, key: K, value: V) -> Self {
        OrderedMapView {
            keys: if self.map.contains_key(key) {
                self.keys
            } else {
                self.keys.push(key)
            },
            map: self.map.insert(key, value),
        }
    }

    /// The map without `key`; the other keys keep their order.
    pub open spec fn remove(self, key: K) -> Self {
        OrderedMapView {
            keys: if self.map.contains_key(key) {
                self.keys.remove(self.keys.index_of(key))
            } else {
                self.keys
            },
            map: self.map.remove(key),
        }
    }

    /// The map without the keys that `other` does not have; the others keep their order.
    pub open spec fn restrict_to(self, other: Map<K, V>) -> Self {
        OrderedMapView {
            keys: self.keys.filter(|key: K| other.contains_key(key)),
            map: self.map.filter_keys(|key: K| other.contains_key(key)),
        }
    }
}

impl<K, V> OrderedMapView<K, V> {
    /// The keys whose value `keep` holds of, with what `change` makes of their values; they keep
    /// their order.
    pub open spec fn select<W>(
        self,
        keep: spec_fn(V) -> bool,
        change: spec_fn(V) -> W,
    ) -> OrderedMapView<K, W> {
        OrderedMapView {
            keys: self.keys.filter(|key: K| keep(self.map[key])),
            map: Map::new(
                |key: K| self.map.contains_key(key) && keep(self.map[key]),
                |key: K| change(self.map[key]),
            ),
        }
    }

    /// A map stays one when a key gets a value.
    pub proof fn lemma_insert_wf(self, key: K, value: V)
        requires
            self.wf(),
        ensures
            self.insert(key, value).wf(),
    {
        let after = self.insert(key, value);
        if !self.map.contains_key(key) {
            assert(after.keys[self.keys.len() as int] == key);
        }
        assert forall|k: K| after.keys.contains(k) <==> #[trigger] after.map.contains_key(k) by {
            if self.keys.contains(k) {
                assert(after.keys[self.keys.index_of(k)] == k);
            }
        }
    }

    /// What is left of a map is one.
    pub proof fn lemma_restrict_to_wf(self, other: Map<K, V>)
        requires
            self.wf(),
        ensures
            self.restrict_to(other).wf(),
    {
        let p = |key: K| other.contains_key(key);
        lemma_filter_keys(self.keys, p);
    }

    /// A map restricted to its own keys is the map.
    pub proof fn lemma_restrict_to_self(self)
        requires
            self.wf(),
        ensures
            self.restrict_to(self.map) == self,
    {
        let p = |key: K| self.map.contains_key(key);
        lemma_filter_all(self.keys, p);
    }

    /// What is selected of a map is one.
    pub proof fn lemma_select_wf<W>(self, keep: spec_fn(V) -> bool, change: spec_fn(V) -> W)
        requires
            self.wf(),
        ensures
            self.select(keep, change).wf(),
    {
        let p = |key: K| keep(self.map[key]);
        lemma_filter_keys(self.keys, p);
    }

    /// What `select` makes of the first `n` keys.
    pub open spec fn select_first<W>(
        self,
        n: int,
        keep: spec_fn(V) -> bool,
        change: spec_fn(V) -> W,
    ) -> OrderedMapView<K, W> {
        OrderedMapView {
            keys: self.keys.take(n).filter(|key: K| keep(self.map[key])),
            map: Map::new(
                |key: K| self.keys.take(n).contains(key) && keep(self.map[key]),
                |key: K| change(self.map[key]),
            ),
        }
    }

    /// `select` takes the keys one by one.
    pub proof fn lemma_select_first<W>(
        self,
        n: int,
        keep: spec_fn(V) -> bool,
        change: spec_fn(V) -> W,
    )
        requires
            self.wf(),
            0 <= n <= self.keys.len(),
        ensures
            self.select_first(0, keep, change) == OrderedMapView::<K, W>::empty(),
            self.select_first(self.keys.len() as int, keep, change) == self.select(keep, change),
            n < self.keys.len() ==> self.select_first(n + 1, keep, change) == (if keep(
                self.map[self.keys[n]],
            ) {
                self.select_first(n, keep, change).insert(
                    self.keys[n],
                    change(self.map[self.keys[n]]),
                )
            } else {
                self.select_first(n, keep, change)
            }),
    {
        let p = |key: K| keep(self.map[key]);
        assert(self.keys.take(0).filter(p) =~= Seq::empty()) by {
            reveal(Seq::filter);
        }
        assert(self.keys.take(self.keys.len() as int) =~= self.keys);
        assert(self.select_first(self.keys.len() as int, keep, change) =~= self.select(
            keep,
            change,
        ));
        if n < self.keys.len() {
            let key = self.keys[n];
            let first = self.keys.take(n);
            assert(self.keys.take(n + 1) =~= first.push(key));
            first.lemma_filter_push(key, p);
        }
    }
}

/// Filtering distinct keys leaves those that are asked for, which are distinct.
proof fn lemma_filter_keys<K>(keys: Seq<K>, p: spec_fn(K) -> bool)
    requires
        keys.no_duplicates(),
    ensures
        keys.filter(p).no_duplicates(),
        forall|key: K| #[trigger] keys.filter(p).contains(key) <==> keys.contains(key) && p(key),
    decreases keys.len(),
{
    reveal(Seq::filter);
    if keys.len() > 0 {
        let rest = keys.drop_last();
        let last = keys.last();
        lemma_filter_keys(rest, p);
        assert(!rest.filter(p).contains(last));
        assert forall|key: K| #[trigger] keys.filter(p).contains(key) <==> keys.contains(key)
            && p(key) by {
            assert(keys[keys.len() - 1] == last);
            if rest.contains(key) {
                assert(keys[rest.index_of(key)] == key);
            }
            if p(last) {
                assert(keys.filter(p)[rest.filter(p).len() as int] == last);
            }
            if rest.filter(p).contains(key) {
                assert(keys.filter(p)[rest.filter(p).index_of(key)] == key);
            }
        }
    }
}

/// Filtering leaves everything if everything is asked for.
proof fn lemma_filter_all<K>(keys: Seq<K>, p: spec_fn(K) -> bool)
    requires
        forall|i: int| 0 <= i < keys.len() ==> p(#[trigger] keys[i]),
    ensures
        keys.filter(p) == keys,
    decreases keys.len(),
{
    reveal(Seq::filter);
    if keys.len() > 0 {
        lemma_filter_all(keys.drop_last(), p);
    }
}

/// A map kept as a list of its entries in the order in which their keys came.
#[derive(Debug, PartialEq, Eq)]
pub struct OrderedMap<K: Key, V: View> {
    entries: Vec<(K, V)>,
}

spec fn keys_of<K: View, V: View>(entries: Seq<(K, V)>) -> Seq<K::V> {
    entries.map_values(|entry: (K, V)| entry.0@)
}

spec fn map_of<K: View, V: View>(entries: Seq<(K, V)>) -> Map<K::V, V::V> {
    Map::new(
        |key: K::V| keys_of(entries).contains(key),
        |key: K::V| entries[keys_of(entries).index_of(key)].1@,
    )
}

impl<K: Key, V: View> View for OrderedMap<K, V> {
    type V = OrderedMapView<K::V, V::V>;

    closed spec fn view(&self) -> OrderedMapView<K::V, V::V> {
        OrderedMapView { keys: keys_of(self.entries@), map: map_of(self.entries@) }
    }
}

/// Entries with distinct keys: the value of each key is that of its one entry.
proof fn lemma_entry_value<K: View, V: View>(entries: Seq<(K, V)>, i: int)
    requires
        keys_of(entries).no_duplicates(),
        0 <= i < entries.len(),
    ensures
        map_of(entries).contains_key(entries[i].0@),
        map_of(entries)[entries[i].0@] == entries[i].1@,
{
    let keys = keys_of(entries);
    assert(keys[i] == entries[i].0@);
}

/// An entry with a new key adds that key and its value.
proof fn lemma_push_entry<K: View, V: View>(entries: Seq<(K, V)>, entry: (K, V))
    requires
        keys_of(entries).no_duplicates(),
        !keys_of(entries).contains(entry.0@),
    ensures
        keys_of(entries.push(entry)) == keys_of(entries).push(entry.0@),
        keys_of(entries.push(entry)).no_duplicates(),
        map_of(entries.push(entry)) == map_of(entries).insert(entry.0@, entry.1@),
{
    let pushed = entries.push(entry);
    let keys = keys_of(entries);
    assert(keys_of(pushed) =~= keys.push(entry.0@));
    assert forall|key: K::V| #[trigger]
        map_of(pushed).contains_key(key) <==> map_of(entries).insert(
            entry.0@,
            entry.1@,
        ).contains_key(key) by {
        if keys.contains(key) {
            let i = keys.index_of(key);
            assert(keys_of(pushed)[i] == key);
        }
        assert(keys_of(pushed)[entries.len() as int] == entry.0@);
    }
    assert forall|key: K::V| #[trigger] map_of(pushed).contains_key(key) implies map_of(pushed)[key]
        == map_of(entries).insert(entry.0@, entry.1@)[key] by {
        let i = keys_of(pushed).index_of(key);
        lemma_entry_value(pushed, i);
        if i < entries.len() {
            lemma_entry_value(entries, i);
        }
    }
}

/// The place of the entry with the key `key`.
fn position<K: Key, V: View>(entries: &Vec<(K, V)>, key: &K) -> (res: Option<usize>)
    ensures
        match res {
            Some(i) => i < entries@.len() && entries@[i as int].0@ == key@,
            None => !keys_of(entries@).contains(key@),
        },
{
    let mut i: usize = 0;
    while i < entries.len()
        invariant
            i <= entries@.len(),
            forall|j: int| 0 <= j < i ==> (#[trigger] entries@[j]).0@ != key@,
        decreases entries@.len() - i,
    {
        if entries[i].0.same(key) {
            return Some(i);
        }
        i += 1;
    }
    None
}

/// The keys that entries with distinct keys have values for are the keys of the entries.
proof fn lemma_entries_wf<K: Key, V: View>(entries: Seq<(K, V)>)
    requires
        keys_of(entries).no_duplicates(),
    ensures
        (OrderedMapView { keys: keys_of(entries), map: map_of(entries) }).wf(),
{
}

impl<K: Key, V: View> OrderedMap<K, V> {
    /// No key occurs twice.
    #[verifier::type_invariant]
    pub open spec fn inv(self) -> bool {
        self@.wf()
    }

    /// The map that holds nothing.
    pub fn new() -> (res: Self)
        ensures
            res@ == OrderedMapView::<K::V, V::V>::empty(),
    {
        OrderedMap { entries: Vec::new() }
    }

    /// The number of keys.
    pub fn len(&self) -> (res: usize)
        ensures
            res == self@.keys.len(),
    {
        self.entries.len()
    }

    /// The entry whose key came after `i` other keys.
    pub fn entry(&self, i: usize) -> (res: (&K, &V))
        requires
            i < self@.keys.len(),
        ensures
            res.0@ == self@.keys[i as int],
            self@.map.contains_key(res.0@),
            res.1@ == self@.map[res.0@],
    {
        proof {
            use_type_invariant(self);
            lemma_entry_value(self.entries@, i as int);
        }
        let entry = &self.entries[i];
        (&entry.0, &entry.1)
    }

    /// Whether `key` has a value.
    pub fn contains_key(&self, key: &K) -> (res: bool)
        ensures
            res == self@.map.contains_key(key@),
    {
        match position(&self.entries, key) {
            Some(i) => {
                assert(self@.keys[i as int] == key@);
                true
            },
            None => false,
        }
    }

    /// The value of `key`.
    pub fn get(&self, key: &K) -> (res: Option<&V>)
        ensures
            res is Some <==> self@.map.contains_key(key@),
            res matches Some(value) ==> value@ == self@.map[key@],
    {
        match position(&self.entries, key) {
            Some(i) => {
                proof {
                    use_type_invariant(self);
                    lemma_entry_value(self.entries@, i as int);
                }
                Some(&self.entries[i].1)
            },
            None => None,
        }
    }

    /// Gives `key` the value `value`.
    pub fn insert(&mut self, key: K, value: V)
        ensures
            final(self)@ == old(self)@.insert(key@, value@),
    {
        proof {
            use_type_invariant(&*self);
        }
        let mut entries: Vec<(K, V)> = Vec::new();
        proof {
            lemma_entries_wf(entries@);
        }
        std::mem::swap(&mut entries, &mut self.entries);
        let ghost before = entries@;
        match position(&entries, &key) {
            Some(i) => {
                entries[i] = (key, value);
                proof {
                    lemma_entry_value(before, i as int);
                    assert(keys_of(entries@) =~= keys_of(before));
                    assert forall|k: K::V| #[trigger]
                        map_of(entries@).contains_key(k) implies map_of(entries@)[k] == map_of(
                        before,
                    ).insert(key@, value@)[k] by {
                        let j = keys_of(before).index_of(k);
                        lemma_entry_value(entries@, j);
                        lemma_entry_value(before, j);
                        assert(keys_of(before)[i as int] == before[i as int].0@);
                    }
                }
            },
            None => {
                proof {
                    lemma_push_entry(before, (key, value));
                }
                entries.push((key, value));
            },
        }
        proof {
            lemma_entries_wf(entries@);
        }
        self.entries = entries;
    }

    /// Takes the value of `key` out.
    pub fn remove(&mut self, key: &K) -> (res: Option<V>)
        ensures
            final(self)@ == old(self)@.remove(key@),
            res is Some <==> old(self)@.map.contains_key(key@),
            res matches Some(value) ==> value@ == old(self)@.map[key@],
    {
        proof {
            use_type_invariant(&*self);
        }
        let mut entries: Vec<(K, V)> = Vec::new();
        proof {
            lemma_entries_wf(entries@);
        }
        std::mem::swap(&mut entries, &mut self.entries);
        let ghost before = entries@;
        let res = match position(&entries, key) {
            Some(i) => {
                let (_, value) = entries.remove(i);
                proof {
                    lemma_entry_value(before, i as int);
                    let keys = keys_of(before);
                    let left = keys_of(entries@);
                    assert(left =~= keys.remove(i as int));
                    assert(keys[i as int] == key@);
                    assert forall|k: K::V| #[trigger]
                        map_of(entries@).contains_key(k) <==> map_of(before).remove(
                            key@,
                        ).contains_key(k) by {
                        if keys.contains(k) && k != key@ {
                            let j = keys.index_of(k);
                            assert(left[if j < i { j } else { j - 1 }] == k);
                        }
                    }
                    assert forall|k: K::V| #[trigger]
                        map_of(entries@).contains_key(k) implies map_of(entries@)[k] == map_of(
                        before,
                    ).remove(key@)[k] by {
                        let j = left.index_of(k);
                        lemma_entry_value(entries@, j);
                        lemma_entry_value(before, if j < i { j } else { j + 1 });
                    }
                }
                Some(value)
            },
            None => None,
        };
        proof {
            lemma_entries_wf(entries@);
        }
        self.entries = entries;
        res
    }

    /// Drops the keys that `other` does not have.
    pub fn retain_keys_of(&mut self, other: &OrderedMap<K, V>)
        ensures
            final(self)@ == old(self)@.restrict_to(other@.map),
    {
        proof {
            use_type_invariant(&*self);
        }
        let mut entries: Vec<(K, V)> = Vec::new();
        proof {
            lemma_entries_wf(entries@);
        }
        std::mem::swap(&mut entries, &mut self.entries);
        let ghost all = entries@;
        let ghost p = |key: K::V| other@.map.contains_key(key);
        let mut kept: Vec<(K, V)> = Vec::new();
        proof {
            broadcast use Seq::lemma_filter_push;
            assert(keys_of(all.take(0)).filter(p) =~= Seq::empty()) by {
                reveal(Seq::filter);
            }
        }
        for entry in it: entries.into_iter()
            invariant
                it.seq() == all,
                p == (|key: K::V| other@.map.contains_key(key)),
                keys_of(all).no_duplicates(),
                keys_of(kept@).no_duplicates(),
                keys_of(kept@) == keys_of(all.take(it.index() as int)).filter(p),
                map_of(kept@) == map_of(all.take(it.index() as int)).filter_keys(p),
        {
            let ghost i = it.index() as int;
            let ghost before = all.take(i);
            proof {
                assert(all.take(i + 1) =~= before.push(entry));
                assert(keys_of(before) =~= keys_of(all).take(i));
                assert(!keys_of(before).contains(entry.0@)) by {
                    if keys_of(before).contains(entry.0@) {
                        assert(keys_of(all)[i] == entry.0@);
                    }
                }
                lemma_push_entry(before, entry);
                keys_of(before).lemma_filter_push(entry.0@, p);
                assert(!keys_of(kept@).contains(entry.0@)) by {
                    if keys_of(kept@).contains(entry.0@) {
                        keys_of(before).lemma_filter_contains_rev(p, entry.0@);
                    }
                }
            }
            if other.contains_key(&entry.0) {
                proof {
                    lemma_push_entry(kept@, entry);
                }
                kept.push(entry);
            }
        }
        assert(all.take(all.len() as int) =~= all);
        proof {
            lemma_entries_wf(kept@);
        }
        self.entries = kept;
    }
}

} // verus!
