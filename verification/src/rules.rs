//! The rules of the program, one step at a time: how each relation is
//! arranged by key, how records are joined, and how groups are aggregated
//! into `Span` records.
//!
//! The two rules are
//!
//! `Span(entity, bindings) :- DdlogNode(entity), DdlogBinding(tn, entity),
//!     var bindings = Aggregate((entity), group2set(tn))`
//!
//! `Span(parent, tns) :- DdlogNode(parent), DdlogDependency(child, parent),
//!     Span(child, child_tns), var tns = Aggregate((parent), group_set_unions(child_tns))`
use vstd::prelude::*;
use crate::set::{std_Set, unions};
use crate::vec::clones_of;
use crate::group::{std_Group, std_group2set, std_group_set_unions, set_views};
use crate::types::{Value, redistributionspan_Span};

verus! {

broadcast use vstd::std_specs::btree::group_btree_axioms;

/// Clones of unsigned integers are the integers themselves.
pub proof fn lemma_u16_clones_are_equal(s: Seq<u16>, t: Seq<u16>)
    requires
        clones_of(s, t),
    ensures
        s == t,
{
    assert forall|i: int| 0 <= i < s.len() implies s[i] == t[i] by {
        assert(cloned(s[i], t[i]));
    }
    assert(s =~= t);
}

/// Arranges a `DdlogBinding` record by its entity.
pub fn binding_by_entity(v: Value) -> (res: Option<(Value, Value)>)
    ensures
        match v {
            Value::redistributionspan_DdlogBinding(b) => res == Some((Value::bit32(b.entity), v)),
            _ => res is None,
        },
{
    let key: Option<u32> = match &v {
        Value::redistributionspan_DdlogBinding(b) => Some(b.entity),
        _ => None,
    };
    match key {
        Some(k) => Some((Value::bit32(k), v)),
        None => None,
    }
}

/// Arranges a `DdlogDependency` record by its `child` field.
pub fn dependency_by_child(v: Value) -> (res: Option<(Value, Value)>)
    ensures
        match v {
            Value::redistributionspan_DdlogDependency(d) => res == Some((Value::bit32(d.child), v)),
            _ => res is None,
        },
{
    let key: Option<u32> = match &v {
        Value::redistributionspan_DdlogDependency(d) => Some(d.child),
        _ => None,
    };
    match key {
        Some(k) => Some((Value::bit32(k), v)),
        None => None,
    }
}

/// Arranges a `DdlogNode` record by its identifier.
pub fn node_by_id(v: Value) -> (res: Option<(Value, Value)>)
    ensures
        match v {
            Value::redistributionspan_DdlogNode(n) => res == Some((Value::bit32(n.id), v)),
            _ => res is None,
        },
{
    let key: Option<u32> = match &v {
        Value::redistributionspan_DdlogNode(n) => Some(n.id),
        _ => None,
    };
    match key {
        Some(k) => Some((Value::bit32(k), v)),
        None => None,
    }
}

/// Arranges a `Span` record by its entity.
pub fn span_by_entity(v: Value) -> (res: Option<(Value, Value)>)
    ensures
        match v {
            Value::redistributionspan_Span(s) => res == Some((Value::bit32(s.entity), v)),
            _ => res is None,
        },
{
    let key: Option<u32> = match &v {
        Value::redistributionspan_Span(s) => Some(s.entity),
        _ => None,
    };
    match key {
        Some(k) => Some((Value::bit32(k), v)),
        None => None,
    }
}

/// Joins a node with a binding of one of its transport nodes: the pair
/// (entity, transport node).
pub fn join_node_binding(_key: &Value, v1: &Value, v2: &Value) -> (res: Option<Value>)
    ensures
        match (*v1, *v2) {
            (Value::redistributionspan_DdlogNode(n), Value::redistributionspan_DdlogBinding(b)) => res
                == Some(Value::tuple2__bit32_bit16((n.id, b.tn))),
            _ => res is None,
        },
{
    let entity: u32 = match v1 {
        Value::redistributionspan_DdlogNode(n) => n.id,
        _ => return None,
    };
    let tn: u16 = match v2 {
        Value::redistributionspan_DdlogBinding(b) => b.tn,
        _ => return None,
    };
    Some(Value::tuple2__bit32_bit16((entity, tn)))
}

/// Arranges a pair (entity, transport node) by its entity.
pub fn entity_tn_by_entity(v: Value) -> (res: Option<(Value, Value)>)
    requires
        v is tuple2__bit32_bit16,
    ensures
        res == Some((Value::bit32(v->tuple2__bit32_bit16_0.0), v)),
{
    let entity: u32 = match &v {
        Value::tuple2__bit32_bit16(p) => p.0,
        _ => 0,
    };
    Some((Value::bit32(entity), v))
}

/// The transport node of a pair (entity, transport node).
pub fn project_tn(v: &Value) -> (res: u16)
    requires
        *v is tuple2__bit32_bit16,
    ensures
        res == v->tuple2__bit32_bit16_0.1,
{
    match v {
        Value::tuple2__bit32_bit16(p) => p.1,
        _ => 0,
    }
}

/// Aggregates the transport nodes bound to an entity into their set: the
/// pair (set of transport nodes, entity).
pub fn aggregate_bindings(key: &Value, group: &std_Group<u16>) -> (res: Value)
    requires
        *key is bit32,
    ensures
        res matches Value::tuple2__std_Set__bit16_bit32(b) && b.0@ == group@.to_set() && b.1
            == key->bit32_0,
{
    let entity: u32 = match key {
        Value::bit32(e) => *e,
        _ => 0,
    };
    let bindings = std_group2set(group);
    proof {
        let t = choose|t: Seq<u16>| clones_of(group@, t) && bindings@ == t.to_set();
        lemma_u16_clones_are_equal(group@, t);
    }
    Value::tuple2__std_Set__bit16_bit32(Box::new((bindings, entity)))
}

/// The `Span` record that a pair (set of transport nodes, entity) stands for.
pub fn span_from_bindings(v: Value) -> (res: Option<Value>)
    requires
        v is tuple2__std_Set__bit16_bit32,
    ensures
        res matches Some(Value::redistributionspan_Span(s)) && s.entity
            == v->tuple2__std_Set__bit16_bit32_0.1 && s.tns@
            == v->tuple2__std_Set__bit16_bit32_0.0@,
{
    match v {
        Value::tuple2__std_Set__bit16_bit32(b) => {
            let (bindings, entity) = *b;
            Some(
                Value::redistributionspan_Span(
                    Box::new(redistributionspan_Span { entity, tns: bindings }),
                ),
            )
        },
        _ => None,
    }
}

/// Joins a node with a dependency on it: the pair (child, parent), where the
/// child is the dependency's `parent` field and the parent the node.
pub fn join_node_dependency(_key: &Value, v1: &Value, v2: &Value) -> (res: Option<Value>)
    ensures
        match (*v1, *v2) {
            (
                Value::redistributionspan_DdlogNode(n),
                Value::redistributionspan_DdlogDependency(d),
            ) => res == Some(Value::tuple2__bit32_bit32((d.parent, n.id))),
            _ => res is None,
        },
{
    let parent: u32 = match v1 {
        Value::redistributionspan_DdlogNode(n) => n.id,
        _ => return None,
    };
    let child: u32 = match v2 {
        Value::redistributionspan_DdlogDependency(d) => d.parent,
        _ => return None,
    };
    Some(Value::tuple2__bit32_bit32((child, parent)))
}

/// Arranges a pair (child, parent) by its child.
pub fn child_parent_by_child(v: Value) -> (res: Option<(Value, Value)>)
    requires
        v is tuple2__bit32_bit32,
    ensures
        res == Some((Value::bit32(v->tuple2__bit32_bit32_0.0), v)),
{
    let child: u32 = match &v {
        Value::tuple2__bit32_bit32(p) => p.0,
        _ => 0,
    };
    Some((Value::bit32(child), v))
}

/// Joins a pair (child, parent) with a span of the child: the triple
/// (child, transport nodes of the child's span, parent).
pub fn join_child_span(_key: &Value, v1: &Value, v2: &Value) -> (res: Option<Value>)
    requires
        *v1 is tuple2__bit32_bit32,
    ensures
        match *v2 {
            Value::redistributionspan_Span(s) => res matches Some(
                Value::tuple3__bit32_std_Set__bit16_bit32(t),
            ) && t.0 == v1->tuple2__bit32_bit32_0.0 && t.1@ == s.tns@ && t.2
                == v1->tuple2__bit32_bit32_0.1,
            _ => res is None,
        },
{
    let (child, parent): (u32, u32) = match v1 {
        Value::tuple2__bit32_bit32(p) => (p.0, p.1),
        _ => (0, 0),
    };
    let child_tns: std_Set<u16> = match v2 {
        Value::redistributionspan_Span(s) => s.tns.clone(),
        _ => return None,
    };
    Some(Value::tuple3__bit32_std_Set__bit16_bit32(Box::new((child, child_tns, parent))))
}

/// Arranges a triple (child, transport nodes, parent) by its parent.
pub fn child_span_by_parent(v: Value) -> (res: Option<(Value, Value)>)
    requires
        v is tuple3__bit32_std_Set__bit16_bit32,
    ensures
        res == Some((Value::bit32(v->tuple3__bit32_std_Set__bit16_bit32_0.2), v)),
{
    let parent: u32 = match &v {
        Value::tuple3__bit32_std_Set__bit16_bit32(t) => t.2,
        _ => 0,
    };
    Some((Value::bit32(parent), v))
}

/// The transport nodes of a triple (child, transport nodes, parent).
pub fn project_child_tns(v: &Value) -> (res: std_Set<u16>)
    requires
        *v is tuple3__bit32_std_Set__bit16_bit32,
    ensures
        res@ == v->tuple3__bit32_std_Set__bit16_bit32_0.1@,
{
    match v {
        Value::tuple3__bit32_std_Set__bit16_bit32(t) => t.1.clone(),
        _ => std_Set::new(),
    }
}

/// Aggregates the transport nodes of the spans of the children of a parent
/// into their union: the pair (parent, union).
pub fn aggregate_child_spans(key: &Value, group: &std_Group<std_Set<u16>>) -> (res: Value)
    requires
        *key is bit32,
    ensures
        res matches Value::tuple2__bit32_std_Set__bit16(b) && b.0 == key->bit32_0 && b.1@
            == unions(set_views(group@)),
{
    let parent: u32 = match key {
        Value::bit32(p) => *p,
        _ => 0,
    };
    let tns = std_group_set_unions(group);
    Value::tuple2__bit32_std_Set__bit16(Box::new((parent, tns)))
}

/// The `Span` record that a pair (parent, set of transport nodes) stands for.
pub fn span_from_child_spans(v: Value) -> (res: Option<Value>)
    requires
        v is tuple2__bit32_std_Set__bit16,
    ensures
        res matches Some(Value::redistributionspan_Span(s)) && s.entity
            == v->tuple2__bit32_std_Set__bit16_0.0 && s.tns@
            == v->tuple2__bit32_std_Set__bit16_0.1@,
{
    match v {
        Value::tuple2__bit32_std_Set__bit16(b) => {
            let (parent, tns) = *b;
            Some(
                Value::redistributionspan_Span(
                    Box::new(redistributionspan_Span { entity: parent, tns }),
                ),
            )
        },
        _ => None,
    }
}

} // verus!
