//! Groups: the values that an aggregation gathers under one key, and the
//! standard aggregation functions over them.
use vstd::prelude::*;
use std::collections::BTreeSet;
use std::collections::BTreeMap;
use std::sync::Arc;
use crate::option::std_Option;
use crate::vec::{std_Vec, clones_of, clone_elems};
use crate::set::{std_Set, set_of_seq, unions, btree_set_append};
use crate::map::std_Map;
use crate::order::{lawful_order, precedes, lt, lemma_precedes_strict_total};
use vstd::std_specs::ops::AddSpec;

verus! {

broadcast use vstd::std_specs::btree::group_btree_axioms;

/// A shared, immutable value.
pub type std_Ref<A> = Arc<A>;

/// The values of a group, in the order in which the aggregation sees them:
/// each is what the group's projection gives for one of its records.
pub struct std_Group<X> {
    pub elems: Vec<X>,
}

impl<X> View for std_Group<X> {
    type V = Seq<X>;

    open spec fn view(&self) -> Seq<X> {
        self.elems@
    }
}

impl<X> std_Group<X> {
    /// The group of the values `elems`.
    pub fn new(elems: Vec<X>) -> (res: Self)
        ensures
            res@ == elems@,
    {
        std_Group { elems }
    }

    /// The number of values.
    fn size(&self) -> (res: u64)
        ensures
            res == self@.len(),
    {
        self.elems.len() as u64
    }
}

impl<X: Clone> std_Group<X> {
    /// A clone of the first value.
    fn first(&self) -> (res: X)
        requires
            self@.len() > 0,
        ensures
            cloned(self@[0], res),
    {
        self.elems[0].clone()
    }

    /// A clone of the value at position `n`.
    fn nth_unchecked(&self, n: u64) -> (res: X)
        requires
            n < self@.len(),
        ensures
            cloned(self@[n as int], res),
    {
        let len = self.elems.len();
        assert(n < len);
        let i = n as usize;
        self.elems[i].clone()
    }

    /// A clone of the value at position `n`, if there is one.
    fn nth(&self, n: u64) -> (res: std_Option<X>)
        ensures
            n < self@.len() <==> res is std_Some,
            res matches std_Option::std_Some { x } ==> cloned(self@[n as int], x),
    {
        if self.size() > n {
            std_Option::std_Some { x: self.nth_unchecked(n) }
        } else {
            std_Option::std_None
        }
    }
}

/// Walks the values of a group from the first to the last.
pub struct GroupIter<'a, X> {
    elems: &'a Vec<X>,
    pos: usize,
}

impl<'a, X> GroupIter<'a, X> {
    /// The position never passes the end.
    #[verifier::type_invariant]
    spec fn pos_in_range(&self) -> bool {
        self.pos <= self.elems@.len()
    }

    /// The values that the walk has yet to give, in order.
    pub closed spec fn remaining(&self) -> Seq<X> {
        self.elems@.skip(self.pos as int)
    }

    /// A walk over all the values of `grp`.
    pub fn new(grp: &'a std_Group<X>) -> (res: Self)
        ensures
            res.remaining() == grp@,
    {
        let res = GroupIter { elems: &grp.elems, pos: 0 };
        assert(res.remaining() =~= grp@);
        res
    }

    /// The number of values left, exactly: as a lower and an upper bound.
    pub fn size_hint(&self) -> (res: (usize, Option<usize>))
        ensures
            res.0 == self.remaining().len(),
            res.1 == Some(res.0),
    {
        proof {
            use_type_invariant(self);
        }
        let n = self.elems.len() - self.pos;
        (n, Some(n))
    }
}

impl<'a, X: Clone> GroupIter<'a, X> {
    /// A clone of the next value, if any is left.
    pub fn next(&mut self) -> (res: Option<X>)
        ensures
            old(self).remaining().len() == 0 ==> res is None && final(self).remaining() == old(
                self,
            ).remaining(),
            old(self).remaining().len() > 0 ==> (res matches Some(x) && cloned(
                old(self).remaining()[0],
                x,
            ) && final(self).remaining() == old(self).remaining().drop_first()),
    {
        proof {
            use_type_invariant(&*self);
        }
        if self.pos < self.elems.len() {
            let x = self.elems[self.pos].clone();
            self.pos = self.pos + 1;
            assert(self.remaining() =~= old(self).remaining().drop_first());
            Some(x)
        } else {
            None
        }
    }
}

impl<'a, X> std_Group<X> {
    /// A walk over the values, from the first to the last.
    pub fn iter(&'a self) -> (res: GroupIter<'a, X>)
        ensures
            res.remaining() == self@,
    {
        GroupIter::new(self)
    }
}

/// The number of values in the group.
pub fn std_group_count<A>(g: &std_Group<A>) -> (res: u64)
    ensures
        res == g@.len(),
{
    g.size()
}

/// A clone of the first value of the group.
pub fn std_group_first<A: Clone>(g: &std_Group<A>) -> (res: A)
    requires
        g@.len() > 0,
    ensures
        cloned(g@[0], res),
{
    g.first()
}

/// A clone of the value at position `n` of the group, if there is one.
pub fn std_group_nth<A: Clone>(g: &std_Group<A>, n: &u64) -> (res: std_Option<A>)
    ensures
        n < g@.len() <==> res is std_Some,
        res matches std_Option::std_Some { x } ==> cloned(g@[*n as int], x),
{
    g.nth(*n)
}

/// The set of (clones of) the values of the group.
pub fn std_group2set<A: Ord + Clone>(g: &std_Group<A>) -> (res: std_Set<A>)
    requires
        lawful_order::<A>(),
    ensures
        exists|t: Seq<A>| clones_of(g@, t) && res@ == t.to_set(),
{
    let t = clone_elems(&g.elems);
    set_of_seq(t)
}

/// The views of a sequence of sets.
pub open spec fn set_views<A: Ord>(s: Seq<std_Set<A>>) -> Seq<Set<A>> {
    s.map_values(|x: std_Set<A>| x@)
}

/// The union of the sets of the group.
pub fn std_group_set_unions<A: Ord + Clone>(g: &std_Group<std_Set<A>>) -> (res: std_Set<A>)
    requires
        lawful_order::<A>(),
    ensures
        res@ == unions(set_views(g@)),
{
    let ghost views = set_views(g@);
    let mut s: BTreeSet<A> = BTreeSet::new();
    let mut i: usize = 0;
    while i < g.elems.len()
        invariant
            lawful_order::<A>(),
            i <= g@.len(),
            views == set_views(g@),
            s@ == unions(views.take(i as int)),
        decreases g@.len() - i,
    {
        let mut other = g.elems[i].x.clone();
        btree_set_append(&mut s, &mut other);
        assert(views.take(i + 1).drop_last() =~= views.take(i as int));
        i = i + 1;
    }
    assert(views.take(g@.len() as int) =~= views);
    std_Set { x: s }
}

/// `<Arc as Clone>::clone`: another pointer to the same value.
#[verifier::external_body]
fn share<A>(r: &Arc<A>) -> (res: Arc<A>)
    ensures
        res == *r,
{
    r.clone()
}

/// The views of a sequence of shared sets.
pub open spec fn ref_set_views<A: Ord>(s: Seq<std_Ref<std_Set<A>>>) -> Seq<Set<A>> {
    s.map_values(|x: std_Ref<std_Set<A>>| (*x)@)
}

/// The union of the shared sets of the group; a group of one set gives that
/// same shared set back.
pub fn std_group_setref_unions<A: Ord + Clone>(g: &std_Group<std_Ref<std_Set<A>>>) -> (res:
    std_Ref<std_Set<A>>)
    requires
        lawful_order::<A>(),
    ensures
        (*res)@ == unions(ref_set_views(g@)),
        g@.len() == 1 ==> res == g@[0],
{
    let ghost views = ref_set_views(g@);
    if g.size() == 1 {
        let r = share(&g.elems[0]);
        assert(views.take(0) =~= Seq::<Set<A>>::empty());
        assert(views =~= views.take(0).push(views[0]));
        assert(unions(Seq::<Set<A>>::empty()) == Set::<A>::empty());
        assert(Set::<A>::empty().union(views[0]) =~= views[0]);
        r
    } else {
        let mut s: BTreeSet<A> = BTreeSet::new();
        let mut i: usize = 0;
        while i < g.elems.len()
            invariant
                lawful_order::<A>(),
                i <= g@.len(),
                views == ref_set_views(g@),
                s@ == unions(views.take(i as int)),
            decreases g@.len() - i,
        {
            let gr: &std_Set<A> = &*g.elems[i];
            let mut other = gr.x.clone();
            btree_set_append(&mut s, &mut other);
            assert(views.take(i + 1).drop_last() =~= views.take(i as int));
            i = i + 1;
        }
        assert(views.take(g@.len() as int) =~= views);
        Arc::new(std_Set { x: s })
    }
}

/// Clones of the values of the group, in order.
pub fn std_group2vec<A: Ord + Clone>(g: &std_Group<A>) -> (res: std_Vec<A>)
    ensures
        clones_of(g@, res@),
{
    std_Vec { x: clone_elems(&g.elems) }
}

/// `q` holds clones of the key and of the value of `p`.
pub open spec fn pair_cloned<K: Clone, V: Clone>(p: (K, V), q: (K, V)) -> bool {
    cloned(p.0, q.0) && cloned(p.1, q.1)
}

/// `t` holds, pair by pair, clones of the keys and values of `s`.
pub open spec fn pair_clones_of<K: Clone, V: Clone>(s: Seq<(K, V)>, t: Seq<(K, V)>) -> bool {
    &&& s.len() == t.len()
    &&& forall|i: int| 0 <= i < s.len() ==> #[trigger] pair_cloned(s[i], t[i])
}

/// The map that inserting the pairs of `s`, in order, builds: a later pair
/// for a key replaces an earlier one.
pub open spec fn map_of_pairs<K, V>(s: Seq<(K, V)>) -> Map<K, V>
    decreases s.len(),
{
    if s.len() == 0 {
        Map::empty()
    } else {
        map_of_pairs(s.drop_last()).insert(s.last().0, s.last().1)
    }
}

/// The map of (clones of) the key-value pairs of the group; where two pairs
/// have the same key, the later one wins.
pub fn std_group2map<K: Ord + Clone, V: Clone>(g: &std_Group<(K, V)>) -> (res: std_Map<K, V>)
    requires
        lawful_order::<K>(),
    ensures
        exists|t: Seq<(K, V)>| pair_clones_of(g@, t) && res@ == map_of_pairs(t),
{
    let mut m: BTreeMap<K, V> = BTreeMap::new();
    let ghost mut t: Seq<(K, V)> = Seq::empty();
    let mut i: usize = 0;
    while i < g.elems.len()
        invariant
            lawful_order::<K>(),
            i <= g@.len(),
            t.len() == i,
            forall|j: int| 0 <= j < i ==> #[trigger] pair_cloned(g@[j], t[j]),
            m@ == map_of_pairs(t),
        decreases g@.len() - i,
    {
        let k = g.elems[i].0.clone();
        let v = g.elems[i].1.clone();
        m.insert(k, v);
        proof {
            let t2 = t.push((k, v));
            assert(t2.drop_last() =~= t);
            assert(pair_cloned(g@[i as int], t2[i as int]));
            t = t2;
        }
        i = i + 1;
    }
    assert(pair_clones_of(g@, t));
    std_Map { x: m }
}

/// A clone of the first of the smallest values of the group.
pub fn std_group_min<A: Ord + Clone>(g: &std_Group<A>) -> (res: A)
    requires
        g@.len() > 0,
        lawful_order::<A>(),
    ensures
        exists|k: int|
            {
                &&& 0 <= k < g@.len()
                &&& cloned(g@[k], res)
                &&& forall|j: int| 0 <= j < g@.len() ==> !precedes(#[trigger] g@[j], g@[k])
                &&& forall|j: int| 0 <= j < k ==> precedes(g@[k], #[trigger] g@[j])
            },
{
    let mut k: usize = 0;
    let mut i: usize = 1;
    proof {
        lemma_precedes_strict_total::<A>();
    }
    while i < g.elems.len()
        invariant
            lawful_order::<A>(),
            0 <= k < i <= g@.len(),
            forall|j: int| 0 <= j < i ==> !precedes(#[trigger] g@[j], g@[k as int]),
            forall|j: int| 0 <= j < k ==> precedes(g@[k as int], #[trigger] g@[j]),
        decreases g@.len() - i,
    {
        proof {
            lemma_precedes_strict_total::<A>();
        }
        if lt(&g.elems[i], &g.elems[k]) {
            k = i;
        }
        i = i + 1;
    }
    let r = g.elems[k].clone();
    assert(cloned(g@[k as int], r));
    r
}

/// A clone of the last of the largest values of the group.
pub fn std_group_max<A: Ord + Clone>(g: &std_Group<A>) -> (res: A)
    requires
        g@.len() > 0,
        lawful_order::<A>(),
    ensures
        exists|k: int|
            {
                &&& 0 <= k < g@.len()
                &&& cloned(g@[k], res)
                &&& forall|j: int| 0 <= j < g@.len() ==> !precedes(g@[k], #[trigger] g@[j])
                &&& forall|j: int| k < j < g@.len() ==> precedes(#[trigger] g@[j], g@[k])
            },
{
    let mut k: usize = 0;
    let mut i: usize = 1;
    proof {
        lemma_precedes_strict_total::<A>();
    }
    while i < g.elems.len()
        invariant
            lawful_order::<A>(),
            0 <= k < i <= g@.len(),
            forall|j: int| 0 <= j < i ==> !precedes(g@[k as int], #[trigger] g@[j]),
            forall|j: int| k < j < i ==> precedes(#[trigger] g@[j], g@[k as int]),
        decreases g@.len() - i,
    {
        proof {
            lemma_precedes_strict_total::<A>();
        }
        if !lt(&g.elems[i], &g.elems[k]) {
            k = i;
        }
        i = i + 1;
    }
    let r = g.elems[k].clone();
    assert(cloned(g@[k as int], r));
    r
}

/// The sum, from the left, of the values of `s`.
pub open spec fn sum_spec<A: AddSpec<A, Output = A>>(s: Seq<A>) -> A
    recommends
        s.len() > 0,
    decreases s.len(),
{
    if s.len() <= 1 {
        s[0]
    } else {
        sum_spec(s.drop_last()).add_spec(s.last())
    }
}

/// Whether every addition of the sum of `s` is allowed (for integers: does
/// not overflow).
pub open spec fn sum_defined<A: AddSpec<A, Output = A>>(s: Seq<A>) -> bool
    decreases s.len(),
{
    s.len() <= 1 || (sum_defined(s.drop_last()) && sum_spec(s.drop_last()).add_req(s.last()))
}

/// The sum of the values of the group, added from the first to the last.
pub fn std_group_sum<A: Copy + core::ops::Add<Output = A>>(g: &std_Group<A>) -> (res: A)
    requires
        g@.len() > 0,
        A::obeys_add_spec(),
        sum_defined(g@),
    ensures
        res == sum_spec(g@),
{
    let mut res = g.elems[0];
    let mut i: usize = 1;
    proof {
        lemma_sum_defined_prefix(g@, 1);
        assert(g@.take(1).drop_last().len() == 0);
    }
    while i < g.elems.len()
        invariant
            1 <= i <= g@.len(),
            sum_defined(g@),
            sum_defined(g@.take(i as int)),
            A::obeys_add_spec(),
            res == sum_spec(g@.take(i as int)),
        decreases g@.len() - i,
    {
        proof {
            lemma_sum_defined_prefix(g@, i + 1);
            assert(g@.take(i + 1).drop_last() =~= g@.take(i as int));
        }
        res = res + g.elems[i];
        i = i + 1;
    }
    assert(g@.take(g@.len() as int) =~= g@);
    res
}

proof fn lemma_sum_defined_prefix<A: AddSpec<A, Output = A>>(s: Seq<A>, n: int)
    requires
        sum_defined(s),
        1 <= n <= s.len(),
    ensures
        sum_defined(s.take(n)),
    decreases s.len(),
{
    if n < s.len() {
        assert(s.drop_last().take(n) =~= s.take(n));
        lemma_sum_defined_prefix(s.drop_last(), n);
    } else {
        assert(s.take(n) =~= s);
    }
}

/// Two sequences of clones of the pairs of the group: the first parts and
/// the second parts.
pub fn std_group_unzip<X: Clone, Y: Clone>(g: &std_Group<(X, Y)>) -> (res: (std_Vec<X>, std_Vec<Y>))
    ensures
        res.0@.len() == g@.len(),
        res.1@.len() == g@.len(),
        forall|i: int|
            0 <= i < g@.len() ==> #[trigger] cloned(g@[i].0, res.0@[i]) && cloned(
                g@[i].1,
                res.1@[i],
            ),
{
    let mut xs: Vec<X> = Vec::new();
    let mut ys: Vec<Y> = Vec::new();
    let mut i: usize = 0;
    while i < g.elems.len()
        invariant
            i <= g@.len(),
            xs@.len() == i,
            ys@.len() == i,
            forall|j: int|
                0 <= j < i ==> #[trigger] cloned(g@[j].0, xs@[j]) && cloned(g@[j].1, ys@[j]),
        decreases g@.len() - i,
    {
        let x = g.elems[i].0.clone();
        let y = g.elems[i].1.clone();
        xs.push(x);
        ys.push(y);
        i = i + 1;
    }
    (std_Vec { x: xs }, std_Vec { x: ys })
}

} // verus!
