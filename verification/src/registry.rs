//! An insertion-ordered map from text keys to values.
//!
//! A [`Registry`] keeps its entries in a vector and never holds two entries
//! under the same key. Its view is a [`Listing`]: the keys in the order in
//! which they were first inserted, and the finite map from keys to values.
use vstd::prelude::*;

verus! {

/// A finite map together with the order in which its keys are listed.
#[verifier::ext_equal]
pub struct Listing<V> {
    pub keys: Seq<Seq<char>>,
    pub map: Map<Seq<char>, V>,
}

impl<V> Listing<V> {
    /// The keys are listed once each and are the keys of the map.
    pub open spec fn wf(self) -> bool {
        &&& self.keys.no_duplicates()
        &&& self.map.dom() == self.keys.to_set()
    }

    /// The listing that holds nothing.
    pub open spec fn empty() -> Self {
        Listing { keys: Seq::empty(), map: Map::empty() }
    }

    /// The number of keys.
    pub open spec fn len(self) -> nat {
        self.keys.len()
    }

    /// The keys as a set.
    pub open spec fn dom(self) -> Set<Seq<char>> {
        self.map.dom()
    }

    /// Whether a value stands under `k`.
    pub open spec fn contains_key(self, k: Seq<char>) -> bool {
        self.map.contains_key(k)
    }

    /// The value under `k`.
    pub open spec fn spec_index(self, k: Seq<char>) -> V {
        self.map[k]
    }

    /// The values, in the order of their keys.
    pub open spec fn values(self) -> Seq<V> {
        self.keys.map_values(|k: Seq<char>| self.map[k])
    }

    /// The listing with `v` under `k`. A value that stood under `k` is
    /// replaced where it stands; a new key goes to the end.
    pub open spec fn insert(self, k: Seq<char>, v: V) -> Self {
        Listing {
            keys: if self.map.contains_key(k) {
                self.keys
            } else {
                self.keys.push(k)
            },
            map: self.map.insert(k, v),
        }
    }

    /// The listing without `k`. The keys that remain keep their order.
    pub open spec fn remove(self, k: Seq<char>) -> Self {
        Listing {
            keys: if self.map.contains_key(k) {
                self.keys.remove(self.keys.index_of(k))
            } else {
                self.keys
            },
            map: self.map.remove(k),
        }
    }
}

/// One key with the value stored under it.
#[derive(Debug)]
pub struct Entry<V> {
    key: String,
    value: V,
}

/// A map keyed by text that lists its entries in insertion order.
#[derive(Debug)]
pub struct Registry<V> {
    entries: Vec<Entry<V>>,
}

impl<V> View for Registry<V> {
    type V = Listing<V>;

    closed spec fn view(&self) -> Listing<V> {
        Listing {
            keys: Seq::new(self.entries.len() as nat, |i: int| self.entries[i].key@),
            map: Map::new(
                |k: Seq<char>| exists|i: int| self.holds_at(i, k),
                |k: Seq<char>| self.entries[choose|i: int| self.holds_at(i, k)].value,
            ),
        }
    }
}

impl<V> Registry<V> {
    /// No key occurs twice.
    #[verifier::type_invariant]
    pub closed spec fn wf(&self) -> bool {
        forall|i: int, j: int|
            0 <= i < j < self.entries.len() ==> self.entries[i].key@ != self.entries[j].key@
    }

    spec fn holds_at(&self, i: int, k: Seq<char>) -> bool {
        0 <= i < self.entries.len() && self.entries[i].key@ == k
    }

    proof fn lemma_at(&self, i: int)
        requires
            self.wf(),
            0 <= i < self.entries.len(),
        ensures
            self@.keys[i] == self.entries[i].key@,
            self@.keys.index_of(self.entries[i].key@) == i,
            self@.contains_key(self.entries[i].key@),
            self@[self.entries[i].key@] == self.entries[i].value,
            self@.map.contains_key(self.entries[i].key@),
            self@.map[self.entries[i].key@] == self.entries[i].value,
            self@.values()[i] == self.entries[i].value,
    {
        let k = self.entries[i].key@;
        assert(self.holds_at(i, k));
        let j = choose|j: int| self.holds_at(j, k);
        assert(self.holds_at(j, k));
        assert(i == j);
        assert(self@.keys[i] == k);
        let at = self@.keys.index_of(k);
        assert(self@.keys.contains(k));
        assert(0 <= at < self@.keys.len() && self@.keys[at] == k);
        assert(self.holds_at(at, k));
    }

    proof fn lemma_absent(&self, k: Seq<char>)
        requires
            forall|j: int| 0 <= j < self.entries.len() ==> self.entries[j].key@ != k,
        ensures
            !self@.contains_key(k),
            !self@.map.contains_key(k),
    {
        assert forall|i: int| !self.holds_at(i, k) by {}
    }

    /// The view of a registry is well formed: its keys are distinct and
    /// are the keys of its map, which is finite and as large as the list.
    pub proof fn lemma_listing(&self)
        requires
            self.wf(),
        ensures
            self@.wf(),
            self@.map.dom().finite(),
            self@.map.len() == self@.keys.len(),
            self@.values().len() == self@.keys.len(),
    {
        assert forall|k: Seq<char>| self@.map.dom().contains(k) <==> self@.keys.to_set().contains(
            k,
        ) by {
            if self@.map.dom().contains(k) {
                let i = choose|i: int| self.holds_at(i, k);
                assert(self.holds_at(i, k));
                assert(self@.keys[i] == k);
            }
            if self@.keys.to_set().contains(k) {
                let i = choose|i: int| 0 <= i < self@.keys.len() && self@.keys[i] == k;
                assert(self.holds_at(i, k));
            }
        }
        assert(self@.map.dom() =~= self@.keys.to_set());
        self@.keys.unique_seq_to_set();
    }

    proof fn lemma_same(&self, other: &Self)
        requires
            self.wf(),
            other.wf(),
            self.entries.len() == other.entries.len(),
            forall|i: int|
                0 <= i < self.entries.len() ==> self.entries[i].key@ == other.entries[i].key@
                    && self.entries[i].value == other.entries[i].value,
        ensures
            self@ == other@,
    {
        assert forall|q: Seq<char>| self@.map.contains_key(q) <==> other@.map.contains_key(q) by {
            if self@.map.contains_key(q) {
                let j = choose|j: int| self.holds_at(j, q);
                assert(self.holds_at(j, q));
                assert(other.holds_at(j, q));
            }
            if other@.map.contains_key(q) {
                let j = choose|j: int| other.holds_at(j, q);
                assert(other.holds_at(j, q));
                assert(self.holds_at(j, q));
            }
        }
        assert forall|q: Seq<char>| self@.map.contains_key(q) implies self@.map[q] == other@.map[q] by {
            let j = choose|j: int| self.holds_at(j, q);
            assert(self.holds_at(j, q));
            self.lemma_at(j);
            other.lemma_at(j);
        }
        assert(self@.map =~= other@.map);
        assert(self@.keys =~= other@.keys);
    }

    /// An empty registry.
    pub fn new() -> (r: Self)
        ensures
            r@ == Listing::<V>::empty(),
    {
        let r = Registry { entries: Vec::new() };
        proof {
            assert forall|k: Seq<char>| !r@.map.contains_key(k) by {
                r.lemma_absent(k);
            }
            assert(r@.map =~= Map::<Seq<char>, V>::empty());
            assert(r@.keys =~= Seq::<Seq<char>>::empty());
        }
        r
    }

    /// The number of entries.
    pub fn len(&self) -> (n: usize)
        ensures
            n == self@.len(),
            n == self@.values().len(),
            n == self@.map.len(),
    {
        proof {
            use_type_invariant(&*self);
            self.lemma_listing();
        }
        self.entries.len()
    }

    /// The index of the entry under `key`.
    fn position(&self, key: &String) -> (r: Option<usize>)
        ensures
            match r {
                Some(i) => i < self.entries.len() && self.entries[i as int].key@ == key@,
                None => forall|j: int| 0 <= j < self.entries.len() ==> self.entries[j].key@ != key@,
            },
    {
        let mut i: usize = 0;
        while i < self.entries.len()
            invariant
                i <= self.entries.len(),
                forall|j: int| 0 <= j < i ==> self.entries[j].key@ != key@,
            decreases self.entries.len() - i,
        {
            if self.entries[i].key == *key {
                return Some(i);
            }
            i += 1;
        }
        None
    }

    /// Whether an entry stands under `key`.
    pub fn contains_key(&self, key: &String) -> (b: bool)
        ensures
            b == self@.contains_key(key@),
    {
        self.get(key).is_some()
    }

    /// The value under `key`, if there is one.
    pub fn get(&self, key: &String) -> (r: Option<&V>)
        ensures
            match r {
                Some(v) => self@.contains_key(key@) && *v == self@[key@],
                None => !self@.contains_key(key@),
            },
    {
        proof {
            use_type_invariant(&*self);
        }
        match self.position(key) {
            Some(i) => {
                proof {
                    self.lemma_at(i as int);
                }
                Some(&self.entries[i].value)
            },
            None => {
                proof {
                    self.lemma_absent(key@);
                }
                None
            },
        }
    }

    /// The key of the `i`-th entry.
    pub fn key_at(&self, i: usize) -> (k: &String)
        requires
            i < self@.len(),
        ensures
            k@ == self@.keys[i as int],
    {
        &self.entries[i].key
    }

    /// The value of the `i`-th entry.
    pub fn value_at(&self, i: usize) -> (v: &V)
        requires
            i < self@.len(),
        ensures
            *v == self@.values()[i as int],
            *v == self@[self@.keys[i as int]],
    {
        proof {
            use_type_invariant(&*self);
            self.lemma_at(i as int);
        }
        &self.entries[i].value
    }

    /// Stores `value` under `key`. An entry that stood under `key` is
    /// replaced where it stands; a new entry goes to the end of the listing.
    pub fn insert(&mut self, key: String, value: V)
        ensures
            final(self)@ == old(self)@.insert(key@, value),
    {
        proof {
            use_type_invariant(&*self);
        }
        let found = self.position(&key);
        let mut entries = Vec::new();
        std::mem::swap(&mut entries, &mut self.entries);
        let ghost before = Registry { entries };
        let ghost k = key@;
        match found {
            Some(i) => {
                entries.set(i, Entry { key, value });
                let ghost after = Registry { entries };
                proof {
                    before.lemma_at(i as int);
                    assert(after.wf());
                    assert forall|q: Seq<char>|
                        after@.map.contains_key(q) <==> before@.insert(k, value).map.contains_key(q) by {
                        if after@.map.contains_key(q) {
                            let j = choose|j: int| after.holds_at(j, q);
                            assert(after.holds_at(j, q));
                            assert(before.holds_at(j, q));
                        }
                        if before@.map.contains_key(q) {
                            let j = choose|j: int| before.holds_at(j, q);
                            assert(before.holds_at(j, q));
                            assert(after.holds_at(j, q));
                        }
                    }
                    assert forall|q: Seq<char>| after@.map.contains_key(q) implies after@.map[q]
                        == before@.insert(k, value).map[q] by {
                        let j = choose|j: int| after.holds_at(j, q);
                        assert(after.holds_at(j, q));
                        after.lemma_at(j);
                        if j != i {
                            before.lemma_at(j);
                        }
                    }
                    assert(after@.map =~= before@.insert(k, value).map);
                    assert(after@.keys =~= before@.keys);
                }
            },
            None => {
                entries.push(Entry { key, value });
                let ghost after = Registry { entries };
                proof {
                    before.lemma_absent(k);
                    assert(after.wf());
                    let n = before.entries.len() as int;
                    assert forall|q: Seq<char>|
                        after@.map.contains_key(q) <==> before@.insert(k, value).map.contains_key(q) by {
                        if after@.map.contains_key(q) {
                            let j = choose|j: int| after.holds_at(j, q);
                            assert(after.holds_at(j, q));
                            if j != n {
                                assert(before.holds_at(j, q));
                            }
                        }
                        if before@.map.contains_key(q) {
                            let j = choose|j: int| before.holds_at(j, q);
                            assert(before.holds_at(j, q));
                            assert(after.holds_at(j, q));
                        }
                        if q == k {
                            assert(after.holds_at(n, q));
                        }
                    }
                    assert forall|q: Seq<char>| after@.map.contains_key(q) implies after@.map[q]
                        == before@.insert(k, value).map[q] by {
                        let j = choose|j: int| after.holds_at(j, q);
                        assert(after.holds_at(j, q));
                        after.lemma_at(j);
                        if j != n {
                            before.lemma_at(j);
                        }
                    }
                    assert(after@.map =~= before@.insert(k, value).map);
                    assert(after@.keys =~= before@.keys.push(k));
                }
            },
        }
        self.entries = entries;
    }

    /// Takes out the entry under `key` and returns its value. The entries
    /// that remain keep their order.
    pub fn remove(&mut self, key: &String) -> (r: Option<V>)
        ensures
            final(self)@ == old(self)@.remove(key@),
            match r {
                Some(v) => old(self)@.contains_key(key@) && v == old(self)@[key@],
                None => !old(self)@.contains_key(key@) && *final(self) == *old(self),
            },
    {
        proof {
            use_type_invariant(&*self);
        }
        let found = self.position(key);
        let ghost k = key@;
        match found {
            Some(i) => {
                let mut entries = Vec::new();
                std::mem::swap(&mut entries, &mut self.entries);
                let ghost before = Registry { entries };
                let gone = entries.remove(i);
                let ghost after = Registry { entries };
                proof {
                    before.lemma_at(i as int);
                    assert(after.wf()) by {
                        assert forall|a: int, b: int| 0 <= a < b < after.entries.len() implies
                            after.entries[a].key@ != after.entries[b].key@ by {
                            let a0 = if a < i {
                                a
                            } else {
                                a + 1
                            };
                            let b0 = if b < i {
                                b
                            } else {
                                b + 1
                            };
                            assert(after.entries[a] == before.entries[a0]);
                            assert(after.entries[b] == before.entries[b0]);
                        }
                    }
                    assert forall|q: Seq<char>|
                        after@.map.contains_key(q) <==> before@.remove(k).map.contains_key(q) by {
                        if after@.map.contains_key(q) {
                            let j = choose|j: int| after.holds_at(j, q);
                            assert(after.holds_at(j, q));
                            let j0 = if j < i {
                                j
                            } else {
                                j + 1
                            };
                            assert(after.entries[j] == before.entries[j0]);
                            assert(before.holds_at(j0, q));
                        }
                        if before@.map.contains_key(q) && q != k {
                            let j = choose|j: int| before.holds_at(j, q);
                            assert(before.holds_at(j, q));
                            let j1 = if j < i {
                                j
                            } else {
                                j - 1
                            };
                            assert(after.entries[j1] == before.entries[j]);
                            assert(after.holds_at(j1, q));
                        }
                    }
                    assert forall|q: Seq<char>| after@.map.contains_key(q) implies after@.map[q]
                        == before@.remove(k).map[q] by {
                        let j = choose|j: int| after.holds_at(j, q);
                        assert(after.holds_at(j, q));
                        after.lemma_at(j);
                        let j0 = if j < i {
                            j
                        } else {
                            j + 1
                        };
                        assert(after.entries[j] == before.entries[j0]);
                        before.lemma_at(j0);
                    }
                    assert(after@.map =~= before@.remove(k).map);
                    assert(after@.keys =~= before@.keys.remove(i as int));
                }
                self.entries = entries;
                Some(gone.value)
            },
            None => {
                proof {
                    self.lemma_absent(k);
                    assert(self@.map =~= self@.map.remove(k));
                }
                None
            },
        }
    }

    /// Takes out every entry.
    pub fn clear(&mut self)
        ensures
            final(self)@ == Listing::<V>::empty(),
    {
        *self = Registry::new();
    }
}

/// The listing that holds, under each key of `l`, the view of the value
/// that `l` holds there.
pub open spec fn views<V: View>(l: Listing<V>) -> Listing<V::V> {
    Listing { keys: l.keys, map: l.map.map_values(|v: V| v@) }
}

/// The views of the items of `s`, in the same order.
pub open spec fn seq_views<V: View>(s: Seq<V>) -> Seq<V::V> {
    s.map_values(|v: V| v@)
}

pub broadcast proof fn lemma_views_insert<V: View>(l: Listing<V>, k: Seq<char>, v: V)
    ensures
        #[trigger] views(l.insert(k, v)) == views(l).insert(k, v@),
{
    assert(views(l.insert(k, v)).map =~= views(l).insert(k, v@).map);
}

pub broadcast proof fn lemma_views_remove<V: View>(l: Listing<V>, k: Seq<char>)
    ensures
        #[trigger] views(l.remove(k)) == views(l).remove(k),
{
    assert(views(l.remove(k)).map =~= views(l).remove(k).map);
}

pub broadcast proof fn lemma_views_empty<V: View>()
    ensures
        #[trigger] views(Listing::<V>::empty()) == Listing::<V::V>::empty(),
{
    assert(views(Listing::<V>::empty()).map =~= Listing::<V::V>::empty().map);
}

pub broadcast proof fn lemma_views_get<V: View>(l: Listing<V>, k: Seq<char>)
    ensures
        #[trigger] views(l).contains_key(k) == l.contains_key(k),
        l.contains_key(k) ==> views(l)[k] == l[k]@,
{
}

/// The values of the views are the views of the values, where the
/// listing is well formed.
pub proof fn lemma_views_values<V: View>(l: Listing<V>)
    requires
        l.wf(),
    ensures
        views(l).wf(),
        views(l).values() == seq_views(l.values()),
        views(l).values().len() == l.keys.len(),
{
    assert(views(l).map.dom() =~= l.map.dom());
    assert forall|i: int| 0 <= i < l.keys.len() implies views(l).values()[i] == seq_views(
        l.values(),
    )[i] by {
        assert(l.keys.to_set().contains(l.keys[i]));
        assert(l.map.contains_key(l.keys[i]));
    }
    assert(views(l).values() =~= seq_views(l.values()));
}

pub broadcast proof fn lemma_seq_views_push<V: View>(s: Seq<V>, v: V)
    ensures
        #[trigger] seq_views(s.push(v)) == seq_views(s).push(v@),
{
    assert(seq_views(s.push(v)) =~= seq_views(s).push(v@));
}

pub broadcast proof fn lemma_seq_views_empty<V: View>()
    ensures
        #[trigger] seq_views(Seq::<V>::empty()) == Seq::<V::V>::empty(),
{
    assert(seq_views(Seq::<V>::empty()) =~= Seq::<V::V>::empty());
}

/// Filtering one item more: the item joins the filtered prefix if it
/// passes `pred`.
pub proof fn lemma_filter_step<A>(s: Seq<A>, i: int, pred: spec_fn(A) -> bool)
    requires
        0 <= i < s.len(),
    ensures
        s.take(i + 1).filter(pred) == (if pred(s[i]) {
            s.take(i).filter(pred).push(s[i])
        } else {
            s.take(i).filter(pred)
        }),
        s.take(i + 1).len() == i + 1,
        i + 1 == s.len() ==> s.take(i + 1) == s,
{
    assert(s.take(i + 1) =~= s.take(i).push(s[i]));
    s.take(i).lemma_filter_push(s[i], pred);
    if i + 1 == s.len() {
        assert(s.take(i + 1) =~= s);
    }
}

/// Mapping one item more.
pub proof fn lemma_map_values_push<A, B>(s: Seq<A>, x: A, f: spec_fn(A) -> B)
    ensures
        s.push(x).map_values(f) == s.map_values(f).push(f(x)),
        Seq::<A>::empty().map_values(f) == Seq::<B>::empty(),
{
    assert(s.push(x).map_values(f) =~= s.map_values(f).push(f(x)));
    assert(Seq::<A>::empty().map_values(f) =~= Seq::<B>::empty());
}

/// Filtering nothing leaves nothing.
pub proof fn lemma_filter_start<A>(s: Seq<A>, pred: spec_fn(A) -> bool)
    ensures
        s.take(0).filter(pred) == Seq::<A>::empty(),
        s.len() == 0 ==> s.filter(pred) == Seq::<A>::empty(),
{
    reveal(Seq::filter);
    assert(s.take(0) =~= Seq::<A>::empty());
    if s.len() == 0 {
        assert(s =~= Seq::<A>::empty());
    }
}

pub broadcast group group_views {
    lemma_views_insert,
    lemma_views_remove,
    lemma_views_empty,
    lemma_views_get,
    lemma_seq_views_push,
    lemma_seq_views_empty,
}

impl<V: Copy> Clone for Registry<V> {
    /// A registry with the same entries in the same order.
    fn clone(&self) -> (r: Self)
        ensures
            r@ == self@,
    {
        proof {
            use_type_invariant(&*self);
        }
        let mut entries: Vec<Entry<V>> = Vec::new();
        let mut i: usize = 0;
        while i < self.entries.len()
            invariant
                i <= self.entries.len(),
                entries.len() == i,
                forall|j: int|
                    0 <= j < i ==> entries[j].key@ == self.entries[j].key@ && entries[j].value
                        == self.entries[j].value,
            decreases self.entries.len() - i,
        {
            let key = self.entries[i].key.clone();
            let value = self.entries[i].value;
            entries.push(Entry { key, value });
            i += 1;
        }
        let r = Registry { entries };
        proof {
            r.lemma_same(self);
        }
        r
    }
}

} // verus!
