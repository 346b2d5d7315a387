//! The ordered map type of the Datalog standard library and its functions.
use vstd::prelude::*;
use std::collections::BTreeMap;
use crate::option::std_Option;
use crate::order::{lawful_order, sorted_listing, precedes, sorted_seq, lemma_sorted_listing_unique, lemma_precedes_strict_total};
use vstd::std_specs::cmp::OrdSpec;
use vstd::std_specs::iter::IteratorSpec;
use core::cmp::Ordering;

verus! {

broadcast use vstd::std_specs::btree::group_btree_axioms;

/// A finite map from keys, kept in the order of their type, to values.
#[derive(Debug, PartialEq, Eq, PartialOrd, Ord, Hash, Default)]
pub struct std_Map<K: Ord, V> {
    pub x: BTreeMap<K, V>,
}

impl<K: Ord + Clone, V: Clone> Clone for std_Map<K, V> {
    /// A map with the same entries.
    fn clone(&self) -> (res: Self)
        ensures
            res@ == self@,
    {
        std_Map { x: self.x.clone() }
    }
}

impl<K: Ord, V> View for std_Map<K, V> {
    type V = Map<K, V>;

    open spec fn view(&self) -> Map<K, V> {
        self.x@
    }
}

impl<K: Ord, V> std_Map<K, V> {
    /// An empty map.
    pub fn new() -> (res: Self)
        ensures
            res@ == Map::<K, V>::empty(),
    {
        std_Map { x: BTreeMap::new() }
    }

    /// Maps `k` to `v`, replacing what `k` was mapped to.
    pub fn insert(&mut self, k: K, v: V)
        requires
            lawful_order::<K>(),
        ensures
            final(self)@ == old(self)@.insert(k, v),
    {
        self.x.insert(k, v);
    }
}

/// `BTreeMap::append`: moves every entry of `other` into `dest`, leaving
/// `other` empty; where both hold a key, the value of `other` wins.
#[verifier::external_body]
fn btree_map_append<K: Ord, V>(dest: &mut BTreeMap<K, V>, other: &mut BTreeMap<K, V>)
    requires
        lawful_order::<K>(),
    ensures
        final(dest)@ == old(dest)@.union_prefer_right(old(other)@),
        final(other)@.dom().is_empty(),
{
    dest.append(other)
}

/// The empty map.
pub fn std_map_empty<K: Ord + Clone, V: Clone>() -> (res: std_Map<K, V>)
    ensures
        res@ == Map::<K, V>::empty(),
{
    std_Map::new()
}

/// The map of a clone of `k` to a clone of `v` alone.
pub fn std_map_singleton<K: Ord + Clone, V: Clone>(k: &K, v: &V) -> (res: std_Map<K, V>)
    requires
        lawful_order::<K>(),
    ensures
        exists|ck: K, cv: V| cloned(*k, ck) && cloned(*v, cv) && res@ == map![ck => cv],
{
    let mut m = std_Map::new();
    let ck = k.clone();
    let cv = v.clone();
    m.insert(ck, cv);
    assert(Map::<K, V>::empty().insert(ck, cv) =~= map![ck => cv]);
    assert(cloned(*k, ck) && cloned(*v, cv));
    m
}

/// Maps a clone of `k` to a clone of `v` in `m`.
pub fn std_map_insert<K: Ord + Clone, V: Clone>(m: &mut std_Map<K, V>, k: &K, v: &V)
    requires
        lawful_order::<K>(),
    ensures
        exists|ck: K, cv: V|
            cloned(*k, ck) && cloned(*v, cv) && final(m)@ == old(m)@.insert(ck, cv),
{
    let ck = k.clone();
    let cv = v.clone();
    m.x.insert(ck, cv);
    assert(cloned(*k, ck) && cloned(*v, cv));
    assert(final(m)@ == old(m)@.insert(ck, cv));
}

/// Removes `k` and what it maps to from `m`.
pub fn std_map_remove<K: Ord + Clone, V: Clone>(m: &mut std_Map<K, V>, k: &K)
    requires
        lawful_order::<K>(),
    ensures
        final(m)@ == old(m)@.remove(*k),
{
    m.x.remove(k);
}

/// A copy of `m` that maps a clone of `k` to a clone of `v`.
pub fn std_map_insert_imm<K: Ord + Clone, V: Clone>(m: &std_Map<K, V>, k: &K, v: &V) -> (res:
    std_Map<K, V>)
    requires
        lawful_order::<K>(),
    ensures
        exists|ck: K, cv: V| cloned(*k, ck) && cloned(*v, cv) && res@ == m@.insert(ck, cv),
{
    let mut m2 = std_Map { x: m.x.clone() };
    let ck = k.clone();
    let cv = v.clone();
    m2.insert(ck, cv);
    assert(cloned(*k, ck) && cloned(*v, cv));
    assert(m2@ == m@.insert(ck, cv));
    m2
}

/// A clone of what `m` maps `k` to, if it maps `k`.
pub fn std_map_get<K: Ord, V: Clone>(m: &std_Map<K, V>, k: &K) -> (res: std_Option<V>)
    requires
        lawful_order::<K>(),
    ensures
        m@.contains_key(*k) <==> res is std_Some,
        res matches std_Option::std_Some { x } ==> cloned(m@[*k], x),
{
    match m.x.get(k) {
        Some(v) => std_Option::std_Some { x: v.clone() },
        None => std_Option::std_None,
    }
}

/// Whether `m` maps `k`.
pub fn std_map_contains_key<K: Ord, V: Clone>(s: &std_Map<K, V>, k: &K) -> (res: bool)
    requires
        lawful_order::<K>(),
    ensures
        res <==> s@.contains_key(*k),
{
    s.x.contains_key(k)
}

/// Whether `m` maps no key.
pub fn std_map_is_empty<K: Ord, V: Clone>(m: &std_Map<K, V>) -> (res: bool)
    ensures
        res <==> m@ == Map::<K, V>::empty(),
{
    let r = m.x.is_empty();
    proof {
        if !r {
            assert(m@ != Map::<K, V>::empty());
        } else {
            assert(m@ =~= Map::<K, V>::empty());
        }
    }
    r
}

/// The entries of `m1` and `m2`; where both map a key, that of `m2`.
pub fn std_map_union<K: Ord + Clone, V: Clone>(m1: &std_Map<K, V>, m2: &std_Map<K, V>) -> (res:
    std_Map<K, V>)
    requires
        lawful_order::<K>(),
    ensures
        res@ == m1@.union_prefer_right(m2@),
{
    let mut m = m1.x.clone();
    let mut other = m2.x.clone();
    btree_map_append(&mut m, &mut other);
    std_Map { x: m }
}

/// The entries of `m` in increasing order of their keys.
pub open spec fn sorted_entries_of<K: Ord, V>(m: Map<K, V>) -> Seq<(K, V)> {
    sorted_seq(m.dom()).map_values(|k: K| (k, m[k]))
}

/// Walks the entries of a map in increasing order of their keys.
pub struct MapIter<'a, K, V> {
    entries: Vec<(&'a K, &'a V)>,
    pos: usize,
}

impl<'a, K, V> MapIter<'a, K, V> {
    /// The position never passes the end.
    #[verifier::type_invariant]
    spec fn pos_in_range(&self) -> bool {
        self.pos <= self.entries@.len()
    }

    /// The entries that the walk has yet to give, in order.
    pub closed spec fn remaining(&self) -> Seq<(K, V)> {
        self.entries@.unref().skip(self.pos as int)
    }

    /// The next entry, if any is left.
    pub fn next(&mut self) -> (res: Option<(&'a K, &'a V)>)
        ensures
            old(self).remaining().len() == 0 ==> res is None && final(self).remaining() == old(
                self,
            ).remaining(),
            old(self).remaining().len() > 0 ==> (res matches Some(kv) && *kv.0 == old(
                self,
            ).remaining()[0].0 && *kv.1 == old(self).remaining()[0].1 && final(self).remaining()
                == old(self).remaining().drop_first()),
    {
        proof {
            use_type_invariant(&*self);
        }
        if self.pos < self.entries.len() {
            let kv: (&'a K, &'a V) = self.entries[self.pos];
            self.pos = self.pos + 1;
            assert(self.remaining() =~= old(self).remaining().drop_first());
            Some(kv)
        } else {
            None
        }
    }

    /// The number of entries left, exactly: as a lower and an upper bound.
    pub fn size_hint(&self) -> (res: (usize, Option<usize>))
        ensures
            res.0 == self.remaining().len(),
            res.1 == Some(res.0),
    {
        proof {
            use_type_invariant(self);
        }
        let n = self.entries.len() - self.pos;
        (n, Some(n))
    }
}

impl<'a, K: Ord, V> MapIter<'a, K, V> {
    /// A walk over all the entries of `map`, in increasing order of their keys.
    pub fn new(map: &'a std_Map<K, V>) -> (res: Self)
        requires
            lawful_order::<K>(),
        ensures
            res.remaining() == sorted_entries_of(map@),
    {
        let res = MapIter { entries: sorted_entries(map), pos: 0 };
        assert(res.remaining() =~= sorted_entries_of(map@));
        res
    }
}

impl<'a, K: Ord, V> std_Map<K, V> {
    /// A walk over the entries, in increasing order of their keys.
    pub fn iter(&'a self) -> (res: MapIter<'a, K, V>)
        requires
            lawful_order::<K>(),
        ensures
            res.remaining() == sorted_entries_of(self@),
    {
        MapIter::new(self)
    }
}

/// The entries of `m` in increasing order of their keys, as references.
pub(crate) fn sorted_entries<K: Ord, V>(m: &std_Map<K, V>) -> (res: Vec<(&K, &V)>)
    requires
        lawful_order::<K>(),
    ensures
        res@.len() == sorted_seq(m@.dom()).len(),
        forall|i: int|
            0 <= i < res@.len() ==> *(#[trigger] res@[i]).0 == sorted_seq(m@.dom())[i] && m@.contains_key(*res@[i].0)
                && *res@[i].1 == m@[*res@[i].0],
{
    let mut res: Vec<(&K, &V)> = Vec::new();
    let ghost g = vstd::std_specs::btree::spec_btree_map_iter(&m.x).remaining();
    for kv in it: m.x.iter()
        invariant
            it.seq() == g,
            res@ == g.take(it.index()),
    {
        res.push(kv);
    }
    assert(res@ =~= g);
    proof {
        let keys = g.map_values(|kv: (&K, &V)| *kv.0);
        vstd::std_specs::btree::axiom_increasing_seq_meaning::<K>(keys);
        lemma_precedes_strict_total::<K>();
        assert forall|i: int, j: int| 0 <= i < j < keys.len() implies precedes(keys[i], keys[j]) by {
            assert(OrdSpec::cmp_spec(&keys[i], &keys[j]) == Ordering::Less);
        }
        assert(keys.no_duplicates()) by {
            assert forall|i: int, j: int| 0 <= i < keys.len() && 0 <= j < keys.len() && i != j
                implies keys[i] != keys[j] by {
                if i < j {
                    assert(precedes(keys[i], keys[j]));
                } else {
                    assert(precedes(keys[j], keys[i]));
                }
            }
        }
        assert forall|k: K| keys.to_set().contains(k) == m@.dom().contains(k) by {
            if m@.contains_key(k) {
                assert(g.contains((&k, &m@[k])));
                let j = choose|j: int| 0 <= j < g.len() && g[j] == (&k, &m@[k]);
                assert(keys[j] == k);
                assert(keys.contains(k));
            }
            if keys.contains(k) {
                let j = choose|j: int| 0 <= j < keys.len() && keys[j] == k;
                assert(m@.contains_key(*g[j].0));
            }
        }
        assert(keys.to_set() =~= m@.dom());
        assert(sorted_listing(keys, m@.dom()));
        lemma_sorted_listing_unique(keys, sorted_seq(m@.dom()), m@.dom());
        assert forall|i: int| 0 <= i < res@.len() implies *(#[trigger] res@[i]).0 == sorted_seq(m@.dom())[i] && m@.contains_key(*res@[i].0)
                && *res@[i].1 == m@[*res@[i].0] by {
            assert(keys[i] == *g[i].0);
        }
    }
    res
}

} // verus!
