//! The relations of the program: their identifiers, their names, and the
//! decoding of their records.
use vstd::prelude::*;
use crate::set::std_Set;
use crate::record::{FromRecord, Record, str_eq};
use crate::types::{
    Value, redistributionspan_DdlogBinding, redistributionspan_DdlogDependency,
    redistributionspan_DdlogNode, redistributionspan_Span,
};

verus! {

/// The numeric identifier of a relation.
pub type RelId = usize;

/// The relations of the program.
#[derive(Clone, Copy, Debug, PartialEq, Eq, Hash, Structural)]
pub enum Relations {
    redistributionspan_DdlogBinding,
    redistributionspan_DdlogDependency,
    redistributionspan_DdlogNode,
    redistributionspan_Span,
}

/// The identifier of each relation: its position in the declaration.
pub open spec fn spec_relation_id(rel: Relations) -> RelId {
    match rel {
        Relations::redistributionspan_DdlogBinding => 0,
        Relations::redistributionspan_DdlogDependency => 1,
        Relations::redistributionspan_DdlogNode => 2,
        Relations::redistributionspan_Span => 3,
    }
}

/// The name of each relation in the program text.
pub open spec fn relation_name(rel: Relations) -> Seq<char> {
    match rel {
        Relations::redistributionspan_DdlogBinding => "redistributionspan.DdlogBinding"@,
        Relations::redistributionspan_DdlogDependency => "redistributionspan.DdlogDependency"@,
        Relations::redistributionspan_DdlogNode => "redistributionspan.DdlogNode"@,
        Relations::redistributionspan_Span => "redistributionspan.Span"@,
    }
}

/// Whether the program reads the relation as input (rather than computing it).
pub open spec fn is_input(rel: Relations) -> bool {
    !(rel is redistributionspan_Span)
}

/// The relation whose name is `name`, if there is one.
pub open spec fn spec_relname2id(name: Seq<char>) -> Option<Relations> {
    if name == relation_name(Relations::redistributionspan_DdlogBinding) {
        Some(Relations::redistributionspan_DdlogBinding)
    } else if name == relation_name(Relations::redistributionspan_DdlogDependency) {
        Some(Relations::redistributionspan_DdlogDependency)
    } else if name == relation_name(Relations::redistributionspan_DdlogNode) {
        Some(Relations::redistributionspan_DdlogNode)
    } else if name == relation_name(Relations::redistributionspan_Span) {
        Some(Relations::redistributionspan_Span)
    } else {
        None
    }
}

/// The relation named `name`, if there is one and the program reads it.
pub open spec fn spec_input_relname_to_id(name: Seq<char>) -> Option<Relations> {
    match spec_relname2id(name) {
        Some(rel) => if is_input(rel) {
            Some(rel)
        } else {
            None
        },
        None => None,
    }
}

/// The relation named `name`, if there is one and the program computes it.
pub open spec fn spec_output_relname_to_id(name: Seq<char>) -> Option<Relations> {
    match spec_relname2id(name) {
        Some(rel) => if is_input(rel) {
            None
        } else {
            Some(rel)
        },
        None => None,
    }
}

/// The relation whose identifier is `rid`, if there is one.
pub open spec fn spec_relid2rel(rid: RelId) -> Option<Relations> {
    if rid == 0 {
        Some(Relations::redistributionspan_DdlogBinding)
    } else if rid == 1 {
        Some(Relations::redistributionspan_DdlogDependency)
    } else if rid == 2 {
        Some(Relations::redistributionspan_DdlogNode)
    } else if rid == 3 {
        Some(Relations::redistributionspan_Span)
    } else {
        None
    }
}

/// The identifier of relation `rel`.
pub fn relation_id(rel: Relations) -> (res: RelId)
    ensures
        res == spec_relation_id(rel),
{
    match rel {
        Relations::redistributionspan_DdlogBinding => 0,
        Relations::redistributionspan_DdlogDependency => 1,
        Relations::redistributionspan_DdlogNode => 2,
        Relations::redistributionspan_Span => 3,
    }
}

/// The relation named `rname`, if there is one.
pub fn relname2id(rname: &str) -> (res: Option<Relations>)
    ensures
        res == spec_relname2id(rname@),
{
    if str_eq(rname, "redistributionspan.DdlogBinding") {
        Some(Relations::redistributionspan_DdlogBinding)
    } else if str_eq(rname, "redistributionspan.DdlogDependency") {
        Some(Relations::redistributionspan_DdlogDependency)
    } else if str_eq(rname, "redistributionspan.DdlogNode") {
        Some(Relations::redistributionspan_DdlogNode)
    } else if str_eq(rname, "redistributionspan.Span") {
        Some(Relations::redistributionspan_Span)
    } else {
        None
    }
}

/// No two relations have the same name.
pub proof fn lemma_relation_names_distinct()
    ensures
        forall|a: Relations, b: Relations| a != b ==> relation_name(a) != relation_name(b),
{
    reveal_strlit("redistributionspan.DdlogBinding");
    reveal_strlit("redistributionspan.DdlogDependency");
    reveal_strlit("redistributionspan.DdlogNode");
    reveal_strlit("redistributionspan.Span");
    assert("redistributionspan.DdlogBinding"@[24] != "redistributionspan.DdlogDependency"@[24]);
    assert("redistributionspan.DdlogBinding"@[24] != "redistributionspan.DdlogNode"@[24]);
    assert("redistributionspan.DdlogDependency"@[24] != "redistributionspan.DdlogNode"@[24]);
    assert("redistributionspan.Span"@.len() != "redistributionspan.DdlogBinding"@.len());
    assert("redistributionspan.Span"@.len() != "redistributionspan.DdlogDependency"@.len());
    assert("redistributionspan.Span"@.len() != "redistributionspan.DdlogNode"@.len());
}

/// The relation named `rname`, if there is one and the program computes it.
pub fn output_relname_to_id(rname: &str) -> (res: Option<Relations>)
    ensures
        res == spec_output_relname_to_id(rname@),
{
    proof {
        lemma_relation_names_distinct();
    }
    if str_eq(rname, "redistributionspan.Span") {
        Some(Relations::redistributionspan_Span)
    } else {
        None
    }
}

/// The relation named `rname`, if there is one and the program reads it.
pub fn input_relname_to_id(rname: &str) -> (res: Option<Relations>)
    ensures
        res == spec_input_relname_to_id(rname@),
{
    if str_eq(rname, "redistributionspan.DdlogBinding") {
        Some(Relations::redistributionspan_DdlogBinding)
    } else if str_eq(rname, "redistributionspan.DdlogDependency") {
        Some(Relations::redistributionspan_DdlogDependency)
    } else if str_eq(rname, "redistributionspan.DdlogNode") {
        Some(Relations::redistributionspan_DdlogNode)
    } else {
        None
    }
}

/// The relation whose identifier is `rid`, if there is one.
pub fn relid2rel(rid: RelId) -> (res: Option<Relations>)
    ensures
        res == spec_relid2rel(rid),
{
    if rid == 0 {
        Some(Relations::redistributionspan_DdlogBinding)
    } else if rid == 1 {
        Some(Relations::redistributionspan_DdlogDependency)
    } else if rid == 2 {
        Some(Relations::redistributionspan_DdlogNode)
    } else if rid == 3 {
        Some(Relations::redistributionspan_Span)
    } else {
        None
    }
}

/// The name of the relation whose identifier is `rid`, if there is one.
pub fn relid2name(rid: RelId) -> (res: Option<&'static str>)
    ensures
        match spec_relid2rel(rid) {
            Some(rel) => res matches Some(name) && name@ == relation_name(rel),
            None => res is None,
        },
{
    if rid == 0 {
        Some("redistributionspan.DdlogBinding")
    } else if rid == 1 {
        Some("redistributionspan.DdlogDependency")
    } else if rid == 2 {
        Some("redistributionspan.DdlogNode")
    } else if rid == 3 {
        Some("redistributionspan.Span")
    } else {
        None
    }
}

/// Each relation of the program with its name, in the order of their identifiers.
pub fn relid_map() -> (res: Vec<(Relations, &'static str)>)
    ensures
        res@.len() == 4,
        forall|i: int|
            0 <= i < 4 ==> spec_relation_id(#[trigger] res@[i].0) == i && res@[i].1@
                == relation_name(res@[i].0),
{
    let mut m: Vec<(Relations, &'static str)> = Vec::new();
    m.push((Relations::redistributionspan_DdlogBinding, "redistributionspan.DdlogBinding"));
    m.push((Relations::redistributionspan_DdlogDependency, "redistributionspan.DdlogDependency"));
    m.push((Relations::redistributionspan_DdlogNode, "redistributionspan.DdlogNode"));
    m.push((Relations::redistributionspan_Span, "redistributionspan.Span"));
    m
}

/// Each relation that the program reads, with its name.
pub fn input_relid_map() -> (res: Vec<(Relations, &'static str)>)
    ensures
        res@.len() == 3,
        forall|i: int|
            0 <= i < 3 ==> spec_relation_id(#[trigger] res@[i].0) == i && is_input(res@[i].0)
                && res@[i].1@ == relation_name(res@[i].0),
{
    let mut m: Vec<(Relations, &'static str)> = Vec::new();
    m.push((Relations::redistributionspan_DdlogBinding, "redistributionspan.DdlogBinding"));
    m.push((Relations::redistributionspan_DdlogDependency, "redistributionspan.DdlogDependency"));
    m.push((Relations::redistributionspan_DdlogNode, "redistributionspan.DdlogNode"));
    m
}

/// Each relation that the program computes, with its name.
pub fn output_relid_map() -> (res: Vec<(Relations, &'static str)>)
    ensures
        res@.len() == 1,
        res@[0].0 == Relations::redistributionspan_Span,
        res@[0].1@ == relation_name(Relations::redistributionspan_Span),
{
    let mut m: Vec<(Relations, &'static str)> = Vec::new();
    m.push((Relations::redistributionspan_Span, "redistributionspan.Span"));
    m
}

/// Whether `rec` is a record of relation `rel`.
pub open spec fn rel_decodes(rel: Relations, rec: Record) -> bool {
    match rel {
        Relations::redistributionspan_DdlogBinding => redistributionspan_DdlogBinding::decodes(rec),
        Relations::redistributionspan_DdlogDependency =>
            redistributionspan_DdlogDependency::decodes(rec),
        Relations::redistributionspan_DdlogNode => redistributionspan_DdlogNode::decodes(rec),
        Relations::redistributionspan_Span => redistributionspan_Span::decodes(rec),
    }
}

/// Whether `rec` is a record of relation `rel` that stands for the value `v`.
pub open spec fn rel_decodes_to(rel: Relations, rec: Record, v: Value) -> bool {
    match rel {
        Relations::redistributionspan_DdlogBinding => v matches Value::redistributionspan_DdlogBinding(
            x,
        ) && redistributionspan_DdlogBinding::decodes_to(rec, x),
        Relations::redistributionspan_DdlogDependency => v matches Value::redistributionspan_DdlogDependency(
            x,
        ) && redistributionspan_DdlogDependency::decodes_to(rec, x),
        Relations::redistributionspan_DdlogNode => v matches Value::redistributionspan_DdlogNode(x)
            && redistributionspan_DdlogNode::decodes_to(rec, x),
        Relations::redistributionspan_Span => v matches Value::redistributionspan_Span(x)
            && redistributionspan_Span::decodes_to(rec, *x),
    }
}

/// The message with which `rec` fails to decode as a record of relation `rel`.
pub open spec fn rel_decode_error(rel: Relations, rec: Record) -> Seq<char> {
    match rel {
        Relations::redistributionspan_DdlogBinding => redistributionspan_DdlogBinding::decode_error(
            rec,
        ),
        Relations::redistributionspan_DdlogDependency =>
            redistributionspan_DdlogDependency::decode_error(rec),
        Relations::redistributionspan_DdlogNode => redistributionspan_DdlogNode::decode_error(rec),
        Relations::redistributionspan_Span => redistributionspan_Span::decode_error(rec),
    }
}

/// Decodes `rec` as a record of relation `rel`; a failure passes on the
/// decoder's own message.
pub fn relval_from_record(rel: Relations, rec: &Record) -> (res: Result<Value, String>)
    ensures
        res is Ok <==> rel_decodes(rel, *rec),
        res matches Ok(v) ==> rel_decodes_to(rel, *rec, v),
        res matches Err(e) ==> e@ == rel_decode_error(rel, *rec),
{
    match rel {
        Relations::redistributionspan_DdlogBinding => {
            match redistributionspan_DdlogBinding::from_record(rec) {
                Ok(x) => Ok(Value::redistributionspan_DdlogBinding(x)),
                Err(e) => Err(e),
            }
        },
        Relations::redistributionspan_DdlogDependency => {
            match redistributionspan_DdlogDependency::from_record(rec) {
                Ok(x) => Ok(Value::redistributionspan_DdlogDependency(x)),
                Err(e) => Err(e),
            }
        },
        Relations::redistributionspan_DdlogNode => {
            match redistributionspan_DdlogNode::from_record(rec) {
                Ok(x) => Ok(Value::redistributionspan_DdlogNode(x)),
                Err(e) => Err(e),
            }
        },
        Relations::redistributionspan_Span => {
            match redistributionspan_Span::from_record(rec) {
                Ok(x) => Ok(Value::redistributionspan_Span(Box::new(x))),
                Err(e) => Err(e),
            }
        },
    }
}

/// How `Debug` writes a relation: the name of its variant.
pub open spec fn relation_debug_name(rel: Relations) -> Seq<char> {
    match rel {
        Relations::redistributionspan_DdlogBinding => "redistributionspan_DdlogBinding"@,
        Relations::redistributionspan_DdlogDependency => "redistributionspan_DdlogDependency"@,
        Relations::redistributionspan_DdlogNode => "redistributionspan_DdlogNode"@,
        Relations::redistributionspan_Span => "redistributionspan_Span"@,
    }
}

/// The message for a relation that has no primary key.
pub open spec fn no_primary_key_message(rel: Relations) -> Seq<char> {
    "relation "@ + relation_debug_name(rel) + " does not have a primary key"@
}

/// The variant name of `rel`, as `Debug` writes it.
fn relation_debug_str(rel: Relations) -> (res: &'static str)
    ensures
        res@ == relation_debug_name(rel),
{
    match rel {
        Relations::redistributionspan_DdlogBinding => "redistributionspan_DdlogBinding",
        Relations::redistributionspan_DdlogDependency => "redistributionspan_DdlogDependency",
        Relations::redistributionspan_DdlogNode => "redistributionspan_DdlogNode",
        Relations::redistributionspan_Span => "redistributionspan_Span",
    }
}

/// Decodes the primary key of relation `rel` from `rec`; no relation of the
/// program has a primary key, so this always fails, saying so.
pub fn relkey_from_record(rel: Relations, rec: &Record) -> (res: Result<Value, String>)
    ensures
        res matches Err(msg) && msg@ == no_primary_key_message(rel),
{
    let mut msg = String::from_str("relation ");
    msg.append(relation_debug_str(rel));
    msg.append(" does not have a primary key");
    Err(msg)
}

} // verus!
