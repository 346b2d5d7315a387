//! The vector type of the Datalog standard library and its functions.
use vstd::prelude::*;
use crate::option::std_Option;
use crate::set::{std_Set, set_of_seq};
use crate::order::lawful_order;
use vstd::std_specs::cmp::PartialEqSpec;

verus! {

/// `t` holds, element by element, clones of the elements of `s`.
pub open spec fn clones_of<X: Clone>(s: Seq<X>, t: Seq<X>) -> bool {
    &&& s.len() == t.len()
    &&& forall|i: int| 0 <= i < s.len() ==> #[trigger] cloned(s[i], t[i])
}

/// A growable sequence of values.
#[derive(Debug, PartialEq, Eq, PartialOrd, Ord, Hash, Default)]
pub struct std_Vec<T> {
    pub x: Vec<T>,
}

impl<T: Clone> Clone for std_Vec<T> {
    /// Clones every element, in order.
    fn clone(&self) -> (res: Self)
        ensures
            clones_of(self@, res@),
    {
        std_Vec { x: clone_elems(&self.x) }
    }
}

impl<T> View for std_Vec<T> {
    type V = Seq<T>;

    open spec fn view(&self) -> Seq<T> {
        self.x@
    }
}

impl<T: Ord> std_Vec<T> {
    /// An empty vector.
    pub fn new() -> (res: Self)
        ensures
            res@ == Seq::<T>::empty(),
    {
        std_Vec { x: Vec::new() }
    }

    /// An empty vector with room for `capacity` elements.
    pub fn with_capacity(capacity: usize) -> (res: Self)
        ensures
            res@ == Seq::<T>::empty(),
    {
        std_Vec { x: Vec::with_capacity(capacity) }
    }

    /// Appends `v` at the end.
    pub fn push(&mut self, v: T)
        ensures
            final(self)@ == old(self)@.push(v),
    {
        self.x.push(v);
    }
}

/// Walks the elements of a vector from the first to the last.
pub struct VecIter<'a, X> {
    elems: &'a Vec<X>,
    pos: usize,
}

impl<'a, X> VecIter<'a, X> {
    /// The position never passes the end.
    #[verifier::type_invariant]
    spec fn pos_in_range(&self) -> bool {
        self.pos <= self.elems@.len()
    }

    /// The elements that the walk has yet to give, in order.
    pub closed spec fn remaining(&self) -> Seq<X> {
        self.elems@.skip(self.pos as int)
    }

    /// A walk over all the elements of `vec`.
    pub fn new(vec: &'a std_Vec<X>) -> (res: Self)
        ensures
            res.remaining() == vec@,
    {
        let res = VecIter { elems: &vec.x, pos: 0 };
        assert(res.remaining() =~= vec@);
        res
    }

    /// The next element, if any is left.
    pub fn next(&mut self) -> (res: Option<&'a X>)
        ensures
            old(self).remaining().len() == 0 ==> res is None && final(self).remaining() == old(
                self,
            ).remaining(),
            old(self).remaining().len() > 0 ==> (res matches Some(x) && *x == old(
                self,
            ).remaining()[0] && final(self).remaining() == old(self).remaining().drop_first()),
    {
        proof {
            use_type_invariant(&*self);
        }
        if self.pos < self.elems.len() {
            let x: &'a X = &self.elems[self.pos];
            self.pos = self.pos + 1;
            assert(self.remaining() =~= old(self).remaining().drop_first());
            Some(x)
        } else {
            None
        }
    }

    /// The number of elements left, exactly: as a lower and an upper bound.
    pub fn size_hint(&self) -> (res: (usize, Option<usize>))
        ensures
            res.0 == self.remaining().len(),
            res.1 == Some(res.0),
    {
        proof {
            use_type_invariant(self);
        }
        let n = self.elems.len() - self.pos;
        (n, Some(n))
    }
}

impl<'a, T> std_Vec<T> {
    /// A walk over the elements, from the first to the last.
    pub fn iter(&'a self) -> (res: VecIter<'a, T>)
        ensures
            res.remaining() == self@,
    {
        VecIter::new(self)
    }
}

/// Clones every element of `v`, in order.
pub fn clone_elems<X: Clone>(v: &Vec<X>) -> (res: Vec<X>)
    ensures
        clones_of(v@, res@),
{
    let mut res: Vec<X> = Vec::new();
    let mut i: usize = 0;
    while i < v.len()
        invariant
            i <= v.len(),
            res@.len() == i,
            forall|j: int| 0 <= j < i ==> #[trigger] cloned(v@[j], res@[j]),
        decreases v.len() - i,
    {
        let c = v[i].clone();
        res.push(c);
        i = i + 1;
    }
    res
}

/// The number of elements.
pub fn std_vec_len<X: Ord + Clone>(v: &std_Vec<X>) -> (res: u64)
    ensures
        res == v@.len(),
{
    v.x.len() as u64
}

/// The empty vector.
pub fn std_vec_empty<X: Ord + Clone>() -> (res: std_Vec<X>)
    ensures
        res@ == Seq::<X>::empty(),
{
    std_Vec::new()
}

/// The vector that holds a clone of `x` alone.
pub fn std_vec_singleton<X: Ord + Clone>(x: &X) -> (res: std_Vec<X>)
    ensures
        res@.len() == 1,
        cloned(*x, res@[0]),
{
    let c = x.clone();
    let mut v: Vec<X> = Vec::new();
    v.push(c);
    std_Vec { x: v }
}

/// Appends a clone of `x` to `v`.
pub fn std_vec_push<X: Ord + Clone>(v: &mut std_Vec<X>, x: &X)
    ensures
        final(v)@.len() == old(v)@.len() + 1,
        final(v)@.take(old(v)@.len() as int) == old(v)@,
        cloned(*x, final(v)@.last()),
{
    let c = x.clone();
    v.push(c);
}

/// A clone of `v` with a clone of `x` appended.
pub fn std_vec_push_imm<X: Ord + Clone>(v: &std_Vec<X>, x: &X) -> (res: std_Vec<X>)
    ensures
        res@.len() == v@.len() + 1,
        clones_of(v@, res@.take(v@.len() as int)),
        cloned(*x, res@.last()),
{
    let mut v2 = std_Vec { x: clone_elems(&v.x) };
    let c = x.clone();
    v2.push(c);
    assert(v2@.take(v@.len() as int) =~= v2@.drop_last());
    v2
}

/// Whether some element of `v` equals `x`.
pub fn std_vec_contains<X: Ord>(v: &std_Vec<X>, x: &X) -> (res: bool)
    requires
        lawful_order::<X>(),
    ensures
        res <==> exists|j: int| 0 <= j < v@.len() && v@[j].eq_spec(x),
{
    let mut i: usize = 0;
    while i < v.x.len()
        invariant
            lawful_order::<X>(),
            i <= v@.len(),
            forall|j: int| 0 <= j < i ==> !v@[j].eq_spec(x),
        decreases v@.len() - i,
    {
        if v.x[i] == *x {
            return true;
        }
        i = i + 1;
    }
    false
}

/// Whether `v` has no element.
pub fn std_vec_is_empty<X: Ord>(v: &std_Vec<X>) -> (res: bool)
    ensures
        res <==> v@.len() == 0,
{
    v.x.is_empty()
}

/// A clone of the element at position `n`, if there is one.
pub fn std_vec_nth<X: Ord + Clone>(v: &std_Vec<X>, n: &u64) -> (res: std_Option<X>)
    ensures
        n < v@.len() <==> res is std_Some,
        res matches std_Option::std_Some { x } ==> cloned(v@[*n as int], x),
{
    let len = v.x.len() as u64;
    if *n < len {
        let i = *n as usize;
        std_Option::std_Some { x: v.x[i].clone() }
    } else {
        std_Option::std_None
    }
}

/// The set of (clones of) the elements of `s`.
pub fn std_vec2set<X: Ord + Clone>(s: &std_Vec<X>) -> (res: std_Set<X>)
    requires
        lawful_order::<X>(),
    ensures
        exists|t: Seq<X>| clones_of(s@, t) && res@ == t.to_set(),
{
    let t = clone_elems(&s.x);
    let res = set_of_seq(t);
    res
}

} // verus!
