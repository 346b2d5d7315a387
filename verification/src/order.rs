//! What the library asks of the order of the values that its sets and maps hold.
use vstd::prelude::*;
use vstd::laws_cmp::{obeys_cmp, obeys_cmp_partial_ord, obeys_cmp_ord, obeys_partial_cmp_spec_properties};
use vstd::std_specs::cmp::{OrdSpec, PartialOrdSpec, PartialEqSpec};
use core::cmp::Ordering;

verus! {

/// The type's `Ord` and `PartialEq` implementations form a lawful total
/// order, the condition under which ordered collections behave as sets and
/// maps.
pub open spec fn lawful_order<X: Ord>() -> bool {
    obeys_cmp::<X>()
}

/// `a` comes strictly before `b` in the order of their type.
pub open spec fn precedes<X: Ord>(a: X, b: X) -> bool {
    a.cmp_spec(&b) == Ordering::Less
}

/// `q` lists the elements of `s` once each, in increasing order.
pub open spec fn sorted_listing<X: Ord>(q: Seq<X>, s: Set<X>) -> bool {
    &&& q.no_duplicates()
    &&& q.to_set() == s
    &&& forall|i: int, j: int| 0 <= i < j < q.len() ==> precedes(q[i], q[j])
}

/// The elements of `s` in increasing order (the listing is unique: see
/// `lemma_sorted_listing_unique`).
pub open spec fn sorted_seq<X: Ord>(s: Set<X>) -> Seq<X> {
    choose|q: Seq<X>| sorted_listing(q, s)
}

/// Whether `a` comes strictly before `b`.
pub fn lt<X: Ord>(a: &X, b: &X) -> (res: bool)
    requires
        lawful_order::<X>(),
    ensures
        res == precedes(*a, *b),
{
    proof {
        reveal(obeys_cmp_partial_ord);
        reveal(obeys_cmp_ord);
    }
    *a < *b
}

/// Under a lawful order, precedence is a strict total order: transitive,
/// irreflexive, asymmetric, and not preceding is transitive too.
pub proof fn lemma_precedes_strict_total<X: Ord>()
    requires
        lawful_order::<X>(),
    ensures
        forall|a: X, b: X, c: X|
            #[trigger] precedes(a, b) && #[trigger] precedes(b, c) ==> precedes(a, c),
        forall|a: X| !#[trigger] precedes(a, a),
        forall|a: X, b: X| #[trigger] precedes(a, b) ==> !precedes(b, a),
        forall|a: X, b: X, c: X|
            #[trigger] precedes(a, b) && !#[trigger] precedes(c, b) ==> precedes(a, c),
        forall|a: X, b: X, c: X|
            !#[trigger] precedes(a, b) && !#[trigger] precedes(b, c) ==> !precedes(a, c),
{
    reveal(obeys_cmp_partial_ord);
    reveal(obeys_cmp_ord);
    reveal(obeys_partial_cmp_spec_properties);
    reveal(vstd::laws_eq::obeys_eq_spec_properties);
    assert forall|a: X, b: X, c: X|
        #[trigger] precedes(a, b) && #[trigger] precedes(b, c) implies precedes(a, c) by {
        assert(a.partial_cmp_spec(&b) == Some(a.cmp_spec(&b)));
        assert(b.partial_cmp_spec(&c) == Some(b.cmp_spec(&c)));
        assert(a.partial_cmp_spec(&c) == Some(a.cmp_spec(&c)));
    }
    assert forall|a: X| !#[trigger] precedes(a, a) by {
        assert(a.partial_cmp_spec(&a) == Some(a.cmp_spec(&a)));
    }
    assert forall|a: X, b: X| #[trigger] precedes(a, b) implies !precedes(b, a) by {
        assert(a.partial_cmp_spec(&b) == Some(a.cmp_spec(&b)));
        assert(b.partial_cmp_spec(&a) == Some(b.cmp_spec(&a)));
    }
    assert forall|a: X, b: X, c: X|
        #[trigger] precedes(a, b) && !#[trigger] precedes(c, b) implies precedes(a, c) by {
        assert(a.partial_cmp_spec(&b) == Some(a.cmp_spec(&b)));
        assert(c.partial_cmp_spec(&b) == Some(c.cmp_spec(&b)));
        assert(b.partial_cmp_spec(&c) == Some(b.cmp_spec(&c)));
        assert(a.partial_cmp_spec(&c) == Some(a.cmp_spec(&c)));
        assert(c.partial_cmp_spec(&a) == Some(c.cmp_spec(&a)));
        assert(b.partial_cmp_spec(&a) == Some(b.cmp_spec(&a)));
    }
    assert forall|a: X, b: X, c: X|
        !#[trigger] precedes(a, b) && !#[trigger] precedes(b, c) implies !precedes(a, c) by {
        assert(a.partial_cmp_spec(&b) == Some(a.cmp_spec(&b)));
        assert(b.partial_cmp_spec(&a) == Some(b.cmp_spec(&a)));
        assert(b.partial_cmp_spec(&c) == Some(b.cmp_spec(&c)));
        assert(c.partial_cmp_spec(&b) == Some(c.cmp_spec(&b)));
        assert(a.partial_cmp_spec(&c) == Some(a.cmp_spec(&c)));
        assert(c.partial_cmp_spec(&a) == Some(c.cmp_spec(&a)));
    }
}

/// Without its first element, a listing without duplicates lists the rest
/// of its set.
proof fn lemma_listing_drop_first<X>(q: Seq<X>)
    requires
        q.len() > 0,
        q.no_duplicates(),
    ensures
        q.drop_first().no_duplicates(),
        q.drop_first().to_set() == q.to_set().remove(q[0]),
{
    assert forall|x: X| q.drop_first().to_set().contains(x) == q.to_set().remove(q[0]).contains(x) by {
        if q.drop_first().to_set().contains(x) {
            let j = choose|j: int| 0 <= j < q.drop_first().len() && q.drop_first()[j] == x;
            assert(q[j + 1] == x);
            assert(q.contains(x));
        }
        if q.to_set().remove(q[0]).contains(x) {
            let j = choose|j: int| 0 <= j < q.len() && q[j] == x;
            assert(j != 0);
            assert(q.drop_first()[j - 1] == x);
            assert(q.drop_first().contains(x));
        }
    }
    assert(q.drop_first().to_set() =~= q.to_set().remove(q[0]));
}

/// A set has one increasing listing only.
pub proof fn lemma_sorted_listing_unique<X: Ord>(q1: Seq<X>, q2: Seq<X>, s: Set<X>)
    requires
        lawful_order::<X>(),
        sorted_listing(q1, s),
        sorted_listing(q2, s),
    ensures
        q1 == q2,
    decreases q1.len(),
{
    lemma_precedes_strict_total::<X>();
    if q1.len() == 0 || q2.len() == 0 {
        if q2.len() > 0 {
            assert(q2.contains(q2[0]));
            assert(s.contains(q2[0]));
            assert(q1.contains(q2[0]));
        }
        if q1.len() > 0 {
            assert(q1.contains(q1[0]));
            assert(s.contains(q1[0]));
            assert(q2.contains(q1[0]));
        }
        assert(q1 =~= q2);
    } else {
        let a = q1[0];
        let b = q2[0];
        assert(q1.contains(a));
        assert(q2.contains(b));
        assert(s.contains(a) && s.contains(b));
        assert(q2.contains(a) && q1.contains(b));
        if a != b {
            let j = choose|j: int| 0 <= j < q2.len() && q2[j] == a;
            let k = choose|k: int| 0 <= k < q1.len() && q1[k] == b;
            assert(precedes(q2[0], q2[j]));
            assert(precedes(q1[0], q1[k]));
            assert(false);
        }
        lemma_listing_drop_first(q1);
        lemma_listing_drop_first(q2);
        let r1 = q1.drop_first();
        let r2 = q2.drop_first();
        assert forall|i: int, j: int| 0 <= i < j < r1.len() implies precedes(r1[i], r1[j]) by {
            assert(precedes(q1[i + 1], q1[j + 1]));
        }
        assert forall|i: int, j: int| 0 <= i < j < r2.len() implies precedes(r2[i], r2[j]) by {
            assert(precedes(q2[i + 1], q2[j + 1]));
        }
        lemma_sorted_listing_unique(r1, r2, s.remove(a));
        assert(q1 =~= q2) by {
            assert forall|i: int| 0 <= i < q1.len() implies q1[i] == q2[i] by {
                if i > 0 {
                    assert(r1[i - 1] == r2[i - 1]);
                }
            }
        }
    }
}

} // verus!
