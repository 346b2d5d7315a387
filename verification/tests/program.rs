use redistribution_span::format::{std___builtin_2string, std_hex, DebugText, DisplayText};
use redistribution_span::group::std_Group;
use redistribution_span::log::LogConfig;
use redistribution_span::map::std_Map;
use redistribution_span::misc::{
    combine_hash_words, std_hash128, std_hash64, std_htonl, std_htons, std_ntohl, std_ntohs,
    std_pow32, std_range,
};
use redistribution_span::option::{std_Either, std_Option};
use redistribution_span::record::{
    arg_extract, decode_all, record_debug_string, CollectionKind, FromRecord, Record,
};
use redistribution_span::relations::{
    input_relid_map, input_relname_to_id, output_relid_map, output_relname_to_id, relation_id,
    relid2name, relid2rel, relid_map, relkey_from_record, relname2id, relval_from_record,
    Relations,
};
use redistribution_span::rules::{
    aggregate_bindings, aggregate_child_spans, binding_by_entity, child_parent_by_child,
    child_span_by_parent, dependency_by_child, entity_tn_by_entity, join_child_span,
    join_node_binding, join_node_dependency, node_by_id, project_child_tns, project_tn,
    span_by_entity, span_from_bindings, span_from_child_spans,
};
use redistribution_span::set::std_Set;
use redistribution_span::tuples::{tuple2, tuple3};
use redistribution_span::strings::{
    std_parse_dec_i64, std_parse_dec_u64, std_str_to_lower, std_string_contains, std_string_join,
    std_string_len, std_string_split, std_string_substr, string_append, string_append_str,
};
use redistribution_span::types::{
    redistributionspan_DdlogBinding, redistributionspan_DdlogDependency,
    redistributionspan_DdlogNode, redistributionspan_Span, tuple0, Value,
};
use redistribution_span::vec::std_Vec;

fn set_of(xs: &[u16]) -> std_Set<u16> {
    let mut s = std_Set::new();
    for x in xs {
        s.insert(*x);
    }
    s
}

fn strings(xs: &[&str]) -> std_Vec<String> {
    let mut v = std_Vec::new();
    for x in xs {
        v.push(x.to_string());
    }
    v
}

fn split(s: &str, sep: &str) -> Vec<String> {
    std_string_split(&s.to_string(), &sep.to_string()).x
}

fn s(x: &str) -> String {
    x.to_string()
}

#[test]
fn appending_strings() {
    assert_eq!(string_append_str(s("ab"), "cd"), "abcd");
    assert_eq!(string_append(s("x"), &s("")), "x");
}

#[test]
fn string_length_counts_bytes() {
    assert_eq!(std_string_len(&s("abc")), 3);
    assert_eq!(std_string_len(&s("é")), 2);
    assert_eq!(std_string_len(&s("")), 0);
}

#[test]
fn string_contains() {
    assert!(std_string_contains(&s("hello"), &s("ell")));
    assert!(std_string_contains(&s("hello"), &s("")));
    assert!(!std_string_contains(&s("hello"), &s("lo!")));
    assert!(!std_string_contains(&s(""), &s("a")));
}

#[test]
fn string_join() {
    assert_eq!(std_string_join(&strings(&["a", "b", "c"]), &s(", ")), "a, b, c");
    assert_eq!(std_string_join(&strings(&["a"]), &s("-")), "a");
    assert_eq!(std_string_join(&strings(&[]), &s("-")), "");
}

#[test]
fn string_split() {
    assert_eq!(split("a,b,,c", ","), vec!["a", "b", "", "c"]);
    assert_eq!(split(",a,", ","), vec!["", "a", ""]);
    assert_eq!(split("abc", "xy"), vec!["abc"]);
    assert_eq!(split("aXYbXYc", "XY"), vec!["a", "b", "c"]);
    assert_eq!(split("aaa", "aa"), vec!["", "a"]);
    assert_eq!(split("", ","), vec![""]);
}

#[test]
fn string_split_with_empty_separator() {
    assert_eq!(split("ab", ""), vec!["", "a", "b", ""]);
    assert_eq!(split("", ""), vec!["", ""]);
}

#[test]
fn join_of_split_gives_the_string_back() {
    for (text, sep) in [("a,b,,c", ","), ("xyz", ""), ("--a--", "--"), ("", ";")] {
        let pieces = std_string_split(&s(text), &s(sep));
        assert_eq!(std_string_join(&pieces, &s(sep)), text);
    }
}

#[test]
fn string_substr_clamps() {
    let t = s("hello");
    assert_eq!(std_string_substr(&t, &1, &3), "el");
    assert_eq!(std_string_substr(&t, &3, &100), "lo");
    assert_eq!(std_string_substr(&t, &4, &2), "");
    assert_eq!(std_string_substr(&t, &9, &12), "");
    assert_eq!(std_string_substr(&t, &0, &5), "hello");
}

#[test]
fn string_to_lower() {
    assert_eq!(std_str_to_lower(&s("AbC1")), "abc1");
    assert_eq!(std_str_to_lower(&s("ÀB")), "àb");
}

#[test]
fn parse_unsigned() {
    assert_eq!(std_parse_dec_u64(&s("42")), std_Option::std_Some { x: 42 });
    assert_eq!(std_parse_dec_u64(&s("+7")), std_Option::std_Some { x: 7 });
    assert_eq!(std_parse_dec_u64(&s("007")), std_Option::std_Some { x: 7 });
    assert_eq!(
        std_parse_dec_u64(&s("18446744073709551615")),
        std_Option::std_Some { x: u64::MAX }
    );
    assert_eq!(std_parse_dec_u64(&s("18446744073709551616")), std_Option::std_None);
    assert_eq!(std_parse_dec_u64(&s("")), std_Option::std_None);
    assert_eq!(std_parse_dec_u64(&s("+")), std_Option::std_None);
    assert_eq!(std_parse_dec_u64(&s("-1")), std_Option::std_None);
    assert_eq!(std_parse_dec_u64(&s("1a")), std_Option::std_None);
    assert_eq!(std_parse_dec_u64(&s(" 1")), std_Option::std_None);
}

#[test]
fn parse_signed() {
    assert_eq!(std_parse_dec_i64(&s("-42")), std_Option::std_Some { x: -42 });
    assert_eq!(std_parse_dec_i64(&s("+42")), std_Option::std_Some { x: 42 });
    assert_eq!(
        std_parse_dec_i64(&s("-9223372036854775808")),
        std_Option::std_Some { x: i64::MIN }
    );
    assert_eq!(std_parse_dec_i64(&s("-9223372036854775809")), std_Option::std_None);
    assert_eq!(
        std_parse_dec_i64(&s("9223372036854775807")),
        std_Option::std_Some { x: i64::MAX }
    );
    assert_eq!(std_parse_dec_i64(&s("9223372036854775808")), std_Option::std_None);
    assert_eq!(std_parse_dec_i64(&s("-")), std_Option::std_None);
    assert_eq!(std_parse_dec_i64(&s("--1")), std_Option::std_None);
}

#[test]
fn parse_of_display_gives_the_number_back() {
    for x in [0u64, 7, 10, 12345, u64::MAX] {
        let text = std___builtin_2string(&x);
        assert_eq!(std_parse_dec_u64(&text), std_Option::std_Some { x });
    }
    let text = std___builtin_2string(&(i64::MAX as u64));
    assert_eq!(std_parse_dec_i64(&text), std_Option::std_Some { x: i64::MAX });
}

#[test]
fn hex_and_decimal_text() {
    assert_eq!(std_hex(&255), "ff");
    assert_eq!(std_hex(&0), "0");
    assert_eq!(std_hex(&0x1a2b), "1a2b");
    assert_eq!(std___builtin_2string(&5u32), "5");
    assert_eq!(std___builtin_2string(&true), "true");
    assert_eq!(std___builtin_2string(&s("hi")), "hi");
}

#[test]
fn collection_text() {
    let set = set_of(&[2, 1]);
    assert_eq!(set.display_string(), "[1,2]");
    assert_eq!(set.debug_string(), "std_Set { x: {1, 2} }");
    let mut v: std_Vec<u32> = std_Vec::new();
    v.push(3);
    v.push(1);
    assert_eq!(v.display_string(), "[3,1]");
    assert_eq!(v.debug_string(), "std_Vec { x: [3, 1] }");
    let empty: std_Vec<u32> = std_Vec::new();
    assert_eq!(empty.display_string(), "[]");
    let mut m: std_Map<u16, u32> = std_Map::new();
    m.insert(2, 20);
    m.insert(1, 10);
    assert_eq!(m.display_string(), "[(1,10),(2,20)]");
    assert_eq!(m.debug_string(), "std_Map { x: {1: 10, 2: 20} }");
}

#[test]
fn option_and_record_text() {
    assert_eq!(std_Option::std_Some { x: 5u32 }.display_string(), "std.Some{5}");
    assert_eq!(std_Option::<u32>::std_None.display_string(), "std.None{}");
    assert_eq!(std_Either::<u16, u32>::std_Right { r: 4 }.display_string(), "std.Right{4}");
    let b = redistributionspan_DdlogBinding { tn: 3, entity: 7 };
    assert_eq!(b.display_string(), "redistributionspan.DdlogBinding{3,7}");
    let d = redistributionspan_DdlogDependency { parent: 1, child: 2 };
    assert_eq!(d.display_string(), "redistributionspan.DdlogDependency{1,2}");
    let n = redistributionspan_DdlogNode { id: 9 };
    assert_eq!(n.display_string(), "redistributionspan.DdlogNode{9}");
    let sp = redistributionspan_Span { entity: 5, tns: set_of(&[2, 1]) };
    assert_eq!(sp.display_string(), "redistributionspan.Span{5,std_Set { x: {1, 2} }}");
    assert_eq!(tuple0.debug_string(), "tuple0");
}

#[test]
fn value_text() {
    assert_eq!(Value::bit32(4).display_string(), "4");
    assert_eq!(Value::tuple0__(()).display_string(), "()");
    assert_eq!(Value::tuple2__bit32_bit16((1, 2)).display_string(), "(1, 2)");
    let t = Value::tuple3__bit32_std_Set__bit16_bit32(Box::new((1, set_of(&[4]), 2)));
    assert_eq!(t.display_string(), "(1, std_Set { x: {4} }, 2)");
    let n = Value::redistributionspan_DdlogNode(redistributionspan_DdlogNode { id: 3 });
    assert_eq!(n.display_string(), "redistributionspan.DdlogNode{3}");
}

#[test]
fn powers() {
    assert_eq!(std_pow32(&2, &10), 1024);
    assert_eq!(std_pow32(&3, &0), 1);
    assert_eq!(std_pow32(&0, &0), 1);
    assert_eq!(std_pow32(&10, &19), 10_000_000_000_000_000_000);
}

#[test]
fn ranges() {
    assert_eq!(std_range(&1, &10, &3).x, vec![1, 4, 7, 10]);
    assert_eq!(std_range(&-2, &1, &1).x, vec![-2, -1, 0, 1]);
    assert_eq!(std_range(&5, &1, &1).x, Vec::<i64>::new());
    assert_eq!(std_range(&4, &4, &2).x, vec![4]);
}

#[test]
fn byte_order() {
    let x: u32 = 0x0102_0304;
    assert_eq!(std_htonl(&x), x.to_be());
    assert_eq!(std_ntohl(&std_htonl(&x)), x);
    assert_eq!(std_ntohl(&x), u32::from_be(x));
    let y: u16 = 0x0a0b;
    assert_eq!(std_htons(&y), y.to_be());
    assert_eq!(std_ntohs(&std_htons(&y)), y);
    assert!(std_htonl(&x) == x || std_htonl(&x) == 0x0403_0201);
    assert!(std_htons(&y) == y || std_htons(&y) == 0x0b0a);
}

#[test]
fn hashes() {
    let a = std_hash64(&12u32);
    assert_eq!(a, std_hash64(&12u32));
    assert_ne!(a, std_hash64(&13u32));
    let wide = std_hash128(&12u32);
    assert_eq!((wide >> 64) as u64, a);
    assert_ne!(wide as u64, a);
    assert_eq!(combine_hash_words(1, 2), (1u128 << 64) | 2);
}

#[test]
fn log_configuration() {
    let mut c = LogConfig::new();
    assert!(!c.log_enabled(&1, &0));
    c.log_set_callback(1, true, 3);
    assert!(c.log_enabled(&1, &3));
    assert!(c.log_enabled(&1, &-5));
    assert!(!c.log_enabled(&1, &4));
    assert!(!c.log_enabled(&2, &0));
    c.log_set_callback(2, true, 0);
    c.log_set_callback(1, false, 10);
    assert!(!c.log_enabled(&1, &0));
    assert!(c.log_enabled(&2, &0));
}

#[test]
fn relation_names_and_ids() {
    assert_eq!(relname2id("redistributionspan.Span"), Some(Relations::redistributionspan_Span));
    assert_eq!(
        relname2id("redistributionspan.DdlogNode"),
        Some(Relations::redistributionspan_DdlogNode)
    );
    assert_eq!(relname2id("Span"), None);
    assert_eq!(
        input_relname_to_id("redistributionspan.DdlogBinding"),
        Some(Relations::redistributionspan_DdlogBinding)
    );
    assert_eq!(input_relname_to_id("redistributionspan.Span"), None);
    assert_eq!(
        output_relname_to_id("redistributionspan.Span"),
        Some(Relations::redistributionspan_Span)
    );
    assert_eq!(output_relname_to_id("redistributionspan.DdlogNode"), None);
    assert_eq!(relid2rel(1), Some(Relations::redistributionspan_DdlogDependency));
    assert_eq!(relid2rel(4), None);
    assert_eq!(relid2name(3), Some("redistributionspan.Span"));
    assert_eq!(relid2name(7), None);
    for rel in [
        Relations::redistributionspan_DdlogBinding,
        Relations::redistributionspan_DdlogDependency,
        Relations::redistributionspan_DdlogNode,
        Relations::redistributionspan_Span,
    ] {
        assert_eq!(relid2rel(relation_id(rel)), Some(rel));
        let name = relid2name(relation_id(rel)).unwrap();
        assert_eq!(relname2id(name), Some(rel));
    }
}

#[test]
fn relation_maps() {
    let all = relid_map();
    assert_eq!(all.len(), 4);
    assert_eq!(all[0], (Relations::redistributionspan_DdlogBinding, "redistributionspan.DdlogBinding"));
    assert_eq!(all[3], (Relations::redistributionspan_Span, "redistributionspan.Span"));
    assert_eq!(input_relid_map().len(), 3);
    assert_eq!(output_relid_map(), vec![(Relations::redistributionspan_Span, "redistributionspan.Span")]);
}

fn named(c: &str, fields: Vec<(&str, Record)>) -> Record {
    Record::NamedStruct(s(c), fields.into_iter().map(|(n, r)| (s(n), r)).collect())
}

#[test]
fn decoding_structs() {
    let rec = Record::PosStruct(s("redistributionspan.DdlogBinding"), vec![Record::Int(3), Record::Int(7)]);
    assert!(
        redistributionspan_DdlogBinding::from_record(&rec)
            == Ok(redistributionspan_DdlogBinding { tn: 3, entity: 7 })
    );
    let rec = named(
        "redistributionspan.DdlogDependency",
        vec![("child", Record::Int(2)), ("parent", Record::Int(1))],
    );
    assert!(
        redistributionspan_DdlogDependency::from_record(&rec)
            == Ok(redistributionspan_DdlogDependency { parent: 1, child: 2 })
    );
    let tns = Record::Array(CollectionKind::SetOf, vec![Record::Int(4), Record::Int(1), Record::Int(4)]);
    let rec = named("redistributionspan.Span", vec![("entity", Record::Int(5)), ("tns", tns)]);
    assert!(
        redistributionspan_Span::from_record(&rec)
            == Ok(redistributionspan_Span { entity: 5, tns: set_of(&[1, 4]) })
    );
    assert_eq!(tuple0::from_record(&Record::Tuple(vec![])), Ok(tuple0));
}

#[test]
fn decoding_errors() {
    let wrong_name = Record::PosStruct(s("redistributionspan.DdlogNode2"), vec![Record::Int(3)]);
    assert!(redistributionspan_DdlogNode::from_record(&wrong_name).is_err());
    let wrong_arity = Record::PosStruct(s("redistributionspan.DdlogNode"), vec![]);
    assert!(redistributionspan_DdlogNode::from_record(&wrong_arity).is_err());
    let missing = named("redistributionspan.DdlogBinding", vec![("tn", Record::Int(1))]);
    assert!(redistributionspan_DdlogBinding::from_record(&missing).is_err());
    let too_big = Record::PosStruct(s("redistributionspan.DdlogBinding"), vec![Record::Int(70000), Record::Int(1)]);
    assert!(redistributionspan_DdlogBinding::from_record(&too_big).is_err());
    assert!(redistributionspan_DdlogNode::from_record(&Record::Bool(true)).is_err());
    assert!(u16::from_record(&Record::Int(-1)).is_err());
    assert!(u32::from_record(&Record::String(s("1"))).is_err());
    assert!(tuple0::from_record(&Record::Tuple(vec![Record::Int(1)])).is_err());
}

#[test]
fn decoding_primitives_and_collections() {
    assert_eq!(bool::from_record(&Record::Bool(true)), Ok(true));
    assert_eq!(String::from_record(&Record::String(s("x"))), Ok(s("x")));
    assert_eq!(u64::from_record(&Record::Int(18446744073709551615)), Ok(u64::MAX));
    assert!(u64::from_record(&Record::Int(18446744073709551616)).is_err());
    assert_eq!(i64::from_record(&Record::Int(-5)), Ok(-5));
    let arr = Record::Array(CollectionKind::Vector, vec![Record::Int(2), Record::Int(2)]);
    assert_eq!(std_Vec::<u32>::from_record(&arr).map(|v| v.x), Ok(vec![2, 2]));
    let bad = Record::Array(CollectionKind::Vector, vec![Record::Int(2), Record::Bool(false)]);
    assert!(std_Vec::<u32>::from_record(&bad).is_err());
    assert!(decode_all::<u16>(&vec![Record::Int(1), Record::Int(-1)]).is_err());
    assert_eq!(decode_all::<u16>(&vec![Record::Int(1), Record::Int(2)]), Ok(vec![1, 2]));
}

#[test]
fn decoding_options() {
    let some = Record::PosStruct(s("std.Some"), vec![Record::Int(5)]);
    assert_eq!(std_Option::<u32>::from_record(&some), Ok(std_Option::std_Some { x: 5 }));
    let none = named("std.None", vec![]);
    assert_eq!(std_Option::<u32>::from_record(&none), Ok(std_Option::std_None));
    let some_named = named("std.Some", vec![("x", Record::Int(6))]);
    assert_eq!(std_Option::<u32>::from_record(&some_named), Ok(std_Option::std_Some { x: 6 }));
    let other = Record::PosStruct(s("std.Maybe"), vec![]);
    assert!(std_Option::<u32>::from_record(&other).is_err());
    assert!(std_Option::<u32>::from_record(&Record::Int(1)).is_err());
    let right = named("std.Right", vec![("r", Record::Bool(true))]);
    assert_eq!(std_Either::<u32, bool>::from_record(&right), Ok(std_Either::std_Right { r: true }));
    let left = Record::PosStruct(s("std.Left"), vec![Record::Int(1)]);
    assert_eq!(std_Either::<u32, bool>::from_record(&left), Ok(std_Either::std_Left { l: 1 }));
}

#[test]
fn named_field_lookup() {
    let args = vec![(s("a"), Record::Int(1)), (s("b"), Record::Int(2)), (s("a"), Record::Int(3))];
    assert_eq!(arg_extract::<u32>(&args, "a"), Ok(1));
    assert_eq!(arg_extract::<u32>(&args, "b"), Ok(2));
    assert!(arg_extract::<u32>(&args, "c").is_err());
}

#[test]
fn relation_values_from_records() {
    let rec = Record::PosStruct(s("redistributionspan.DdlogNode"), vec![Record::Int(8)]);
    match relval_from_record(Relations::redistributionspan_DdlogNode, &rec) {
        Ok(Value::redistributionspan_DdlogNode(n)) => assert_eq!(n.id, 8),
        _ => panic!("expected a node"),
    }
    assert!(relval_from_record(Relations::redistributionspan_Span, &rec).is_err());
    assert!(relkey_from_record(Relations::redistributionspan_DdlogNode, &rec).is_err());
}

#[test]
fn first_rule_spans_the_bindings_of_a_node() {
    let node = Value::redistributionspan_DdlogNode(redistributionspan_DdlogNode { id: 7 });
    let binding = Value::redistributionspan_DdlogBinding(redistributionspan_DdlogBinding { tn: 3, entity: 7 });
    match node_by_id(node.clone()) {
        Some((Value::bit32(k), _)) => assert_eq!(k, 7),
        _ => panic!("expected a key"),
    }
    match binding_by_entity(binding.clone()) {
        Some((Value::bit32(k), _)) => assert_eq!(k, 7),
        _ => panic!("expected a key"),
    }
    assert!(binding_by_entity(node.clone()).is_none());
    let joined = join_node_binding(&Value::bit32(7), &node, &binding).unwrap();
    match &joined {
        Value::tuple2__bit32_bit16(p) => assert_eq!(*p, (7, 3)),
        _ => panic!("expected a pair"),
    }
    assert!(join_node_binding(&Value::bit32(7), &binding, &node).is_none());
    match entity_tn_by_entity(joined.clone()) {
        Some((Value::bit32(k), _)) => assert_eq!(k, 7),
        _ => panic!("expected a key"),
    }
    assert_eq!(project_tn(&joined), 3);
    let agg = aggregate_bindings(&Value::bit32(7), &std_Group::new(vec![3, 1, 3]));
    match span_from_bindings(agg) {
        Some(Value::redistributionspan_Span(sp)) => {
            assert_eq!(sp.entity, 7);
            assert_eq!(sp.tns, set_of(&[1, 3]));
        },
        _ => panic!("expected a span"),
    }
}

#[test]
fn second_rule_spans_the_spans_of_the_children() {
    let node = Value::redistributionspan_DdlogNode(redistributionspan_DdlogNode { id: 1 });
    let dep = Value::redistributionspan_DdlogDependency(redistributionspan_DdlogDependency { parent: 2, child: 1 });
    match dependency_by_child(dep.clone()) {
        Some((Value::bit32(k), _)) => assert_eq!(k, 1),
        _ => panic!("expected a key"),
    }
    let pair = join_node_dependency(&Value::bit32(1), &node, &dep).unwrap();
    match &pair {
        Value::tuple2__bit32_bit32(p) => assert_eq!(*p, (2, 1)),
        _ => panic!("expected a pair"),
    }
    match child_parent_by_child(pair.clone()) {
        Some((Value::bit32(k), _)) => assert_eq!(k, 2),
        _ => panic!("expected a key"),
    }
    let child_span = Value::redistributionspan_Span(Box::new(redistributionspan_Span { entity: 2, tns: set_of(&[5, 6]) }));
    match span_by_entity(child_span.clone()) {
        Some((Value::bit32(k), _)) => assert_eq!(k, 2),
        _ => panic!("expected a key"),
    }
    let triple = join_child_span(&Value::bit32(2), &pair, &child_span).unwrap();
    match child_span_by_parent(triple.clone()) {
        Some((Value::bit32(k), _)) => assert_eq!(k, 1),
        _ => panic!("expected a key"),
    }
    assert_eq!(project_child_tns(&triple), set_of(&[5, 6]));
    let group = std_Group::new(vec![set_of(&[5, 6]), set_of(&[6, 9])]);
    let agg = aggregate_child_spans(&Value::bit32(1), &group);
    match span_from_child_spans(agg) {
        Some(Value::redistributionspan_Span(sp)) => {
            assert_eq!(sp.entity, 1);
            assert_eq!(sp.tns, set_of(&[5, 6, 9]));
        },
        _ => panic!("expected a span"),
    }
}

#[test]
fn value_clone_and_default() {
    let v = Value::tuple2__std_Set__bit16_bit32(Box::new((set_of(&[1]), 4)));
    assert!(v.clone() == v);
    assert!(Value::default() == Value::tuple0__(()));
}

#[test]
fn decoding_tuples() {
    let rec = Record::Tuple(vec![Record::Int(1), Record::Bool(true)]);
    assert_eq!(tuple2::<u32, bool>::from_record(&rec), Ok(tuple2(1, true)));
    assert!(tuple3::<u32, bool, u16>::from_record(&rec).is_err());
    let rec3 = Record::Tuple(vec![Record::Int(1), Record::Bool(false), Record::Int(70000)]);
    assert!(tuple3::<u32, bool, u16>::from_record(&rec3).is_err());
    let ok3 = Record::Tuple(vec![Record::Int(1), Record::Bool(false), Record::Int(7)]);
    assert_eq!(tuple3::<u32, bool, u16>::from_record(&ok3), Ok(tuple3(1, false, 7)));
    assert!(tuple2::<u32, bool>::from_record(&Record::Int(3)).is_err());
}

#[test]
fn decoding_maps() {
    let pair = |k: i128, v: i128| Record::Tuple(vec![Record::Int(k), Record::Int(v)]);
    let rec = Record::Array(CollectionKind::MapOf, vec![pair(2, 20), pair(1, 10), pair(2, 21)]);
    let m = std_Map::<u16, u32>::from_record(&rec).unwrap();
    assert_eq!(m.x.into_iter().collect::<Vec<(u16, u32)>>(), vec![(1, 10), (2, 21)]);
    let bad = Record::Array(CollectionKind::MapOf, vec![pair(1, 10), Record::Int(3)]);
    assert!(std_Map::<u16, u32>::from_record(&bad).is_err());
    let short = Record::Array(CollectionKind::MapOf, vec![Record::Tuple(vec![Record::Int(1)])]);
    assert!(std_Map::<u16, u32>::from_record(&short).is_err());
    assert!(std_Map::<u16, u32>::from_record(&Record::Bool(true)).is_err());
}

#[test]
fn relations_have_no_primary_key() {
    let rec = Record::Bool(true);
    for rel in [
        Relations::redistributionspan_DdlogBinding,
        Relations::redistributionspan_DdlogDependency,
        Relations::redistributionspan_DdlogNode,
        Relations::redistributionspan_Span,
    ] {
        match relkey_from_record(rel, &rec) {
            Err(msg) => assert_eq!(msg, format!("relation {:?} does not have a primary key", rel)),
            Ok(_) => panic!("no relation has a primary key"),
        }
    }
    match relkey_from_record(Relations::redistributionspan_Span, &rec) {
        Err(msg) => assert_eq!(msg, "relation redistributionspan_Span does not have a primary key"),
        Ok(_) => panic!("no relation has a primary key"),
    }
}

#[test]
fn record_text_is_its_debug_form() {
    let records = vec![
        Record::Bool(false),
        Record::Int(-17),
        Record::String(s("a\"b\\c\n")),
        Record::Tuple(vec![]),
        Record::Tuple(vec![Record::Int(1), Record::Bool(true)]),
        Record::Array(CollectionKind::SetOf, vec![Record::Int(2), Record::Int(3), Record::Int(4)]),
        Record::Array(CollectionKind::Unknown, vec![]),
        Record::PosStruct(s("std.Left"), vec![]),
        named("std.Some", vec![("x", Record::Array(CollectionKind::Vector, vec![Record::Int(0)]))]),
        named("p", vec![("a", Record::Int(1)), ("b", Record::String(s("é\u{0}")))]),
    ];
    for r in records {
        assert_eq!(record_debug_string(&r), format!("{:?}", r));
    }
}

fn err_of<T: FromRecord>(r: &Record) -> String {
    match T::from_record(r) {
        Err(e) => e,
        Ok(_) => panic!("expected an error"),
    }
}

#[test]
fn decode_error_messages() {
    let left = Record::PosStruct(s("std.Left"), vec![]);
    assert_eq!(
        err_of::<std_Either<u32, u32>>(&left),
        "unknown constructor std.Left of type std_Either in PosStruct(\"std.Left\", [])"
    );
    assert_eq!(err_of::<std_Either<u32, u32>>(&Record::Int(1)), "not a struct Int(1)");
    let none_with_arg = Record::PosStruct(s("std.None"), vec![Record::Int(1)]);
    assert_eq!(
        err_of::<std_Option<u32>>(&none_with_arg),
        "unknown constructor std.None of type std_Option in PosStruct(\"std.None\", [Int(1)])"
    );
    assert!(err_of::<std_Option<u32>>(&Record::PosStruct(s("std.Some"), vec![]))
        .starts_with("unknown constructor std.Some of type std_Option"));
    assert_eq!(err_of::<u16>(&Record::Int(70000)), "cannot convert 70000 to u16");
    assert_eq!(err_of::<u32>(&Record::Int(-1)), "cannot convert -1 to u32");
    assert_eq!(err_of::<bool>(&Record::Int(1)), "not a bool Int(1)");
    assert_eq!(err_of::<u64>(&Record::Bool(true)), "not an int Bool(true)");
    assert_eq!(err_of::<tuple0>(&Record::Int(1)), "not a tuple Int(1)");
    assert_eq!(err_of::<std_Vec<u16>>(&Record::Int(1)), "not an array Int(1)");
}

#[test]
fn decoders_pass_on_the_first_field_error() {
    let r1 = Record::PosStruct(s("redistributionspan.DdlogBinding"), vec![Record::Int(70000), Record::Int(1)]);
    assert_eq!(err_of::<redistributionspan_DdlogBinding>(&r1), err_of::<u16>(&Record::Int(70000)));
    let r2 = Record::PosStruct(s("redistributionspan.DdlogBinding"), vec![Record::Int(1)]);
    assert!(err_of::<redistributionspan_DdlogBinding>(&r2).starts_with("unknown constructor"));
    let r3 = Record::PosStruct(s("redistributionspan.DdlogNode"), vec![Record::Int(1), Record::Int(2)]);
    assert!(err_of::<redistributionspan_DdlogBinding>(&r3)
        .starts_with("unknown constructor redistributionspan.DdlogNode of type redistributionspan_DdlogBinding"));
    assert_eq!(err_of::<redistributionspan_DdlogNode>(&Record::Int(9)), "not a struct Int(9)");
    let both_bad = Record::PosStruct(s("redistributionspan.Span"), vec![Record::Bool(true), Record::Int(3)]);
    assert_eq!(err_of::<redistributionspan_Span>(&both_bad), "not an int Bool(true)");
    let tns_bad = Record::PosStruct(
        s("redistributionspan.Span"),
        vec![Record::Int(3), Record::Array(CollectionKind::SetOf, vec![Record::Int(1), Record::Int(-2)])],
    );
    assert_eq!(err_of::<redistributionspan_Span>(&tns_bad), "cannot convert -2 to u16");
    let missing = named("redistributionspan.Span", vec![("tns", Record::Array(CollectionKind::SetOf, vec![]))]);
    assert_eq!(err_of::<redistributionspan_Span>(&missing), "missing field entity");
    match relval_from_record(Relations::redistributionspan_Span, &tns_bad) {
        Err(e) => assert_eq!(e, "cannot convert -2 to u16"),
        Ok(_) => panic!("expected an error"),
    }
}

#[test]
fn either_named_and_positional_agree() {
    for payload in [Record::Int(4), Record::Int(-4), Record::Bool(true)] {
        for (c, f) in [("std.Left", "l"), ("std.Right", "r")] {
            let p = Record::PosStruct(s(c), vec![payload_clone(&payload)]);
            let n = named(c, vec![(f, payload_clone(&payload))]);
            assert_eq!(
                std_Either::<u32, u32>::from_record(&p),
                std_Either::<u32, u32>::from_record(&n)
            );
        }
    }
}

fn payload_clone(r: &Record) -> Record {
    match r {
        Record::Int(i) => Record::Int(*i),
        Record::Bool(b) => Record::Bool(*b),
        _ => panic!("only integers and booleans here"),
    }
}

#[test]
fn string_debug_text() {
    assert_eq!(s("a").debug_string(), "\"a\"");
    assert_eq!(s("x\"y").debug_string(), format!("{:?}", "x\"y"));
    let e: std_Either<u32, String> = std_Either::std_Right { r: s("a") };
    assert_eq!(e.display_string(), "std.Right{\"a\"}");
    let o: std_Option<String> = std_Option::std_Some { x: s("b") };
    assert_eq!(o.display_string(), "std.Some{\"b\"}");
}
