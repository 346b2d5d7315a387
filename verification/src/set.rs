//! The ordered set type of the Datalog standard library and its functions.
use vstd::prelude::*;
use std::collections::BTreeSet;
use crate::option::std_Option;
use crate::vec::{std_Vec, clones_of};
use crate::order::{lawful_order, sorted_listing, precedes, sorted_seq, lemma_sorted_listing_unique};
use vstd::std_specs::cmp::OrdSpec;
use core::cmp::Ordering;
use vstd::std_specs::iter::IteratorSpec;

verus! {

broadcast use vstd::std_specs::btree::group_btree_axioms;

/// A finite set of values, kept in the order of their type.
#[derive(Debug, PartialEq, Eq, PartialOrd, Ord, Hash, Default)]
pub struct std_Set<T: Ord> {
    pub x: BTreeSet<T>,
}

impl<T: Ord + Clone> Clone for std_Set<T> {
    /// A set with the same elements.
    fn clone(&self) -> (res: Self)
        ensures
            res@ == self@,
    {
        std_Set { x: self.x.clone() }
    }
}

impl<T: Ord> View for std_Set<T> {
    type V = Set<T>;

    open spec fn view(&self) -> Set<T> {
        self.x@
    }
}

impl<T: Ord> std_Set<T> {
    /// An empty set.
    pub fn new() -> (res: Self)
        ensures
            res@ == Set::<T>::empty(),
    {
        std_Set { x: BTreeSet::new() }
    }

    /// Adds `v` to the set.
    pub fn insert(&mut self, v: T)
        requires
            lawful_order::<T>(),
        ensures
            final(self)@ == old(self)@.insert(v),
    {
        self.x.insert(v);
    }
}

/// The set of the elements of `t`.
pub fn set_of_seq<X: Ord>(t: Vec<X>) -> (res: std_Set<X>)
    requires
        lawful_order::<X>(),
    ensures
        res@ == t@.to_set(),
{
    let mut res = std_Set::new();
    let mut t = t;
    let ghost orig = t@;
    while t.len() > 0
        invariant
            lawful_order::<X>(),
            t@.len() <= orig.len(),
            t@ == orig.take(t@.len() as int),
            res@ == orig.skip(t@.len() as int).to_set(),
        decreases t@.len(),
    {
        let ghost n = t@.len();
        let ghost before = t@;
        let e = t.pop().unwrap();
        assert(before[n - 1] == orig.take(n as int)[n - 1]);
        assert(e == orig[n - 1]);
        assert(t@ =~= orig.take(n - 1));
        assert(orig.skip(n - 1) =~= seq![e] + orig.skip(n as int));
        res.insert(e);
        proof {
            vstd::seq_lib::seq_to_set_distributes_over_add(seq![e], orig.skip(n as int));
            assert(seq![e].to_set() =~= set![e]) by {
                assert(seq![e].contains(e) == (seq![e][0] == e));
            }
        }
    }
    assert(orig.skip(0) =~= orig);
    res
}

} // verus!

verus! {

/// The elements of `s` in increasing order, as references.
pub(crate) fn sorted_refs<X: Ord>(s: &std_Set<X>) -> (res: Vec<&X>)
    requires
        lawful_order::<X>(),
    ensures
        sorted_listing(res@.unref(), s@),
        res@.unref() == sorted_seq(s@),
        res@.len() == s@.len(),
{
    let mut res: Vec<&X> = Vec::new();
    let ghost g = vstd::std_specs::btree::spec_btree_keys_iter(&s.x).remaining();
    for e in it: s.x.iter()
        invariant
            it.seq() == g,
            res@ == g.take(it.index()),
    {
        res.push(e);
    }
    assert(res@ =~= g);
    proof {
        lemma_keys_sorted(s, g);
    }
    res
}

/// Walks the elements of a set in increasing order.
pub struct SetIter<'a, X> {
    elems: Vec<&'a X>,
    pos: usize,
}

impl<'a, X> SetIter<'a, X> {
    /// The position never passes the end.
    #[verifier::type_invariant]
    spec fn pos_in_range(&self) -> bool {
        self.pos <= self.elems@.len()
    }

    /// The elements that the walk has yet to give, in order.
    pub closed spec fn remaining(&self) -> Seq<X> {
        self.elems@.unref().skip(self.pos as int)
    }

    /// The next element, if any is left.
    pub fn next(&mut self) -> (res: Option<&'a X>)
        ensures
            old(self).remaining().len() == 0 ==> res is None && final(self).remaining() == old(
                self,
            ).remaining(),
            old(self).remaining().len() > 0 ==> (res matches Some(x) && *x == old(
                self,
            ).remaining()[0] && final(self).remaining() == old(self).remaining().drop_first()),
    {
        proof {
            use_type_invariant(&*self);
        }
        if self.pos < self.elems.len() {
            let x: &'a X = self.elems[self.pos];
            self.pos = self.pos + 1;
            assert(self.remaining() =~= old(self).remaining().drop_first());
            Some(x)
        } else {
            None
        }
    }

    /// The number of elements left, exactly: as a lower and an upper bound.
    pub fn size_hint(&self) -> (res: (usize, Option<usize>))
        ensures
            res.0 == self.remaining().len(),
            res.1 == Some(res.0),
    {
        proof {
            use_type_invariant(self);
        }
        let n = self.elems.len() - self.pos;
        (n, Some(n))
    }
}

impl<'a, X: Ord> SetIter<'a, X> {
    /// A walk over all the elements of `set`, in increasing order.
    pub fn new(set: &'a std_Set<X>) -> (res: Self)
        requires
            lawful_order::<X>(),
        ensures
            res.remaining() == sorted_seq(set@),
            sorted_listing(sorted_seq(set@), set@),
    {
        let res = SetIter { elems: sorted_refs(set), pos: 0 };
        assert(res.remaining() =~= sorted_seq(set@));
        res
    }
}

impl<'a, T: Ord> std_Set<T> {
    /// A walk over the elements, in increasing order.
    pub fn iter(&'a self) -> (res: SetIter<'a, T>)
        requires
            lawful_order::<T>(),
        ensures
            res.remaining() == sorted_seq(self@),
            sorted_listing(sorted_seq(self@), self@),
    {
        SetIter::new(self)
    }
}

/// For a lawful order, a set gives its elements once each, in increasing
/// order.
proof fn lemma_keys_sorted<X: Ord>(s: &std_Set<X>, g: Seq<&X>)
    requires
        lawful_order::<X>(),
        g == vstd::std_specs::btree::spec_btree_keys_iter(&s.x).remaining(),
    ensures
        sorted_listing(g.unref(), s@),
        g.unref() == sorted_seq(s@),
        g.len() == s@.len(),
{
    {
        broadcast use vstd::laws_cmp::lemma_ref_obeys_cmp_spec;
        assert(vstd::laws_cmp::obeys_cmp::<&X>());
        let q = g.unref();
        assert(vstd::std_specs::btree::increasing_seq(g));
        vstd::std_specs::btree::axiom_increasing_seq_meaning::<&X>(g);
        assert forall|i: int, j: int| 0 <= i < j < q.len() implies precedes(q[i], q[j]) by {
            assert(OrdSpec::cmp_spec(&g[i], &g[j]) == Ordering::Less);
        }
        assert(q.no_duplicates()) by {
            assert forall|i: int, j: int| 0 <= i < q.len() && 0 <= j < q.len() && i != j
                implies q[i] != q[j] by {
                assert(g[i] != g[j]);
            }
        }
        assert(q.to_set() =~= s@);
        assert(sorted_listing(q, s@));
        lemma_sorted_listing_unique(q, sorted_seq(s@), s@);
        q.unique_seq_to_set();
    }
}

} // verus!

verus! {

/// `BTreeSet::append`: moves every element of `other` into `set`, leaving
/// `other` empty; for a lawful order, `set` ends as the union of both.
#[verifier::external_body]
pub(crate) fn btree_set_append<X: Ord>(set: &mut BTreeSet<X>, other: &mut BTreeSet<X>)
    requires
        lawful_order::<X>(),
    ensures
        final(set)@ == old(set)@.union(old(other)@),
        final(other)@ == Set::<X>::empty(),
{
    set.append(other)
}

/// The union of the sets in `ss`.
pub open spec fn unions<X>(ss: Seq<Set<X>>) -> Set<X>
    decreases ss.len(),
{
    if ss.len() == 0 {
        Set::empty()
    } else {
        unions(ss.drop_last()).union(ss.last())
    }
}

/// The number of elements.
pub fn std_set_size<X: Ord + Clone>(s: &std_Set<X>) -> (res: u64)
    requires
        lawful_order::<X>(),
    ensures
        res == s@.len(),
{
    s.x.len() as u64
}

/// The empty set.
pub fn std_set_empty<X: Ord + Clone>() -> (res: std_Set<X>)
    ensures
        res@ == Set::<X>::empty(),
{
    std_Set::new()
}

/// The set that holds a clone of `v` alone.
pub fn std_set_singleton<X: Ord + Clone>(v: &X) -> (res: std_Set<X>)
    requires
        lawful_order::<X>(),
    ensures
        exists|c: X| cloned(*v, c) && res@ == set![c],
{
    let mut s = std_Set::new();
    let c = v.clone();
    s.insert(c);
    assert(Set::<X>::empty().insert(c) =~= set![c]);
    assert(cloned(*v, c));
    s
}

/// Adds a clone of `v` to `s`.
pub fn std_set_insert<X: Ord + Clone>(s: &mut std_Set<X>, v: &X)
    requires
        lawful_order::<X>(),
    ensures
        exists|c: X| cloned(*v, c) && final(s)@ == old(s)@.insert(c),
{
    let c = v.clone();
    s.x.insert(c);
    assert(cloned(*v, c));
}

/// A copy of `s` with a clone of `v` added.
pub fn std_set_insert_imm<X: Ord + Clone>(s: &std_Set<X>, v: &X) -> (res: std_Set<X>)
    requires
        lawful_order::<X>(),
    ensures
        exists|c: X| cloned(*v, c) && res@ == s@.insert(c),
{
    let mut s2 = std_Set { x: s.x.clone() };
    let c = v.clone();
    s2.insert(c);
    assert(cloned(*v, c));
    s2
}

/// Whether `v` is an element of `s`.
pub fn std_set_contains<X: Ord>(s: &std_Set<X>, v: &X) -> (res: bool)
    requires
        lawful_order::<X>(),
    ensures
        res <==> s@.contains(*v),
{
    s.x.contains(v)
}

/// Whether `s` has no element.
pub fn std_set_is_empty<X: Ord>(s: &std_Set<X>) -> (res: bool)
    ensures
        res <==> s@ == Set::<X>::empty(),
{
    let r = s.x.is_empty();
    proof {
        if !r {
            assert(s@ != Set::<X>::empty());
        }
    }
    r
}

/// A clone of the `n`-th smallest element of `s`, counting from zero, if
/// `s` has that many elements.
pub fn std_set_nth<X: Ord + Clone>(s: &std_Set<X>, n: &u64) -> (res: std_Option<X>)
    requires
        lawful_order::<X>(),
    ensures
        sorted_listing(sorted_seq(s@), s@),
        n < s@.len() <==> res is std_Some,
        res matches std_Option::std_Some { x } ==> cloned(sorted_seq(s@)[*n as int], x),
{
    let refs = sorted_refs(s);
    let len = refs.len() as u64;
    if *n < len {
        let i = *n as usize;
        let e: &X = refs[i];
        let c = e.clone();
        assert(refs@.unref()[i as int] == *e);
        std_Option::std_Some { x: c }
    } else {
        std_Option::std_None
    }
}

/// Clones of the elements of `s`, in increasing order.
pub fn std_set2vec<X: Ord + Clone>(s: &std_Set<X>) -> (res: std_Vec<X>)
    requires
        lawful_order::<X>(),
    ensures
        sorted_listing(sorted_seq(s@), s@),
        clones_of(sorted_seq(s@), res@),
{
    let refs = sorted_refs(s);
    let mut v: Vec<X> = Vec::new();
    let mut i: usize = 0;
    while i < refs.len()
        invariant
            i <= refs@.len(),
            v@.len() == i,
            forall|j: int| 0 <= j < i ==> #[trigger] cloned(refs@.unref()[j], v@[j]),
        decreases refs@.len() - i,
    {
        let e: &X = refs[i];
        let c = e.clone();
        assert(refs@.unref()[i as int] == *e);
        v.push(c);
        i = i + 1;
    }
    std_Vec { x: v }
}

/// The union of `s1` and `s2`.
pub fn std_set_union<X: Ord + Clone>(s1: &std_Set<X>, s2: &std_Set<X>) -> (res: std_Set<X>)
    requires
        lawful_order::<X>(),
    ensures
        res@ == s1@.union(s2@),
{
    let mut s = s1.x.clone();
    let mut other = s2.x.clone();
    btree_set_append(&mut s, &mut other);
    std_Set { x: s }
}

/// The union of all the sets in `sets`.
pub fn std_set_unions<X: Ord + Clone>(sets: &std_Vec<std_Set<X>>) -> (res: std_Set<X>)
    requires
        lawful_order::<X>(),
    ensures
        res@ == unions(sets@.map_values(|s: std_Set<X>| s@)),
{
    let ghost views = sets@.map_values(|s: std_Set<X>| s@);
    let mut s: BTreeSet<X> = BTreeSet::new();
    let mut i: usize = 0;
    while i < sets.x.len()
        invariant
            lawful_order::<X>(),
            i <= sets@.len(),
            views == sets@.map_values(|s: std_Set<X>| s@),
            s@ == unions(views.take(i as int)),
        decreases sets@.len() - i,
    {
        let mut other = sets.x[i].x.clone();
        btree_set_append(&mut s, &mut other);
        assert(views.take(i + 1).drop_last() =~= views.take(i as int));
        i = i + 1;
    }
    assert(views.take(sets@.len() as int) =~= views);
    std_Set { x: s }
}

} // verus!
