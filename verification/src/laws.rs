//! Properties that hold across the functions of the library: what one call
//! undoes of another, what a read gives back of a write, and which lookups
//! agree.
use vstd::prelude::*;
use crate::relations::{
    Relations, RelId, spec_relation_id, relation_name, is_input, spec_relname2id, spec_relid2rel,
    spec_input_relname_to_id, spec_output_relname_to_id, lemma_relation_names_distinct,
};
use crate::log::{log_module_t, log_log_level_t, spec_log_enabled, spec_log_configure};
use crate::strings::{
    seq_join, split_spec, first_occurrence, lemma_first_occurrence, decimal_value,
    all_decimal_digits, spec_parse_dec_u64, spec_parse_dec_i64,
};
use crate::format::{decimal_text, digit_char};
use crate::set::unions;
use crate::group::map_of_pairs;
use crate::misc::range_seq;
use crate::record::{FromRecord, Record, first_field};
use crate::option::std_Either;
use crate::set::std_Set;
use crate::types::{
    Value, redistributionspan_DdlogBinding, redistributionspan_DdlogDependency,
    redistributionspan_DdlogNode, redistributionspan_Span,
};
use crate::format::{DisplayText, DebugText};

verus! {

/// The relation of an identifier is the relation that has it:
/// `relid2rel(relation_id(rel))` is `rel`.
pub proof fn law_relid_of_relation(rel: Relations)
    ensures
        spec_relid2rel(spec_relation_id(rel)) == Some(rel),
{
}

/// Only the identifiers of relations name relations: `relid2rel(rid)` is
/// some relation exactly when `rid` is that relation's identifier.
pub proof fn law_relid2rel_inverts(rid: RelId)
    ensures
        match spec_relid2rel(rid) {
            Some(rel) => spec_relation_id(rel) == rid,
            None => forall|rel: Relations| spec_relation_id(rel) != rid,
        },
{
}

/// Looking a relation up by its name gives the relation back:
/// `relname2id(name(rel))` is `rel`.
pub proof fn law_relname_of_relation(rel: Relations)
    ensures
        spec_relname2id(relation_name(rel)) == Some(rel),
{
    lemma_relation_names_distinct();
}

/// Only the names of relations name relations: `relname2id(name)` is some
/// relation exactly when `name` is that relation's name.
pub proof fn law_relname2id_inverts(name: Seq<char>)
    ensures
        match spec_relname2id(name) {
            Some(rel) => relation_name(rel) == name,
            None => forall|rel: Relations| relation_name(rel) != name,
        },
{
}

/// Every relation is found by its name either among the relations that the
/// program reads or among those it computes, and never among both.
pub proof fn law_input_output_partition(rel: Relations)
    ensures
        is_input(rel) ==> spec_input_relname_to_id(relation_name(rel)) == Some(rel)
            && spec_output_relname_to_id(relation_name(rel)) is None,
        !is_input(rel) ==> spec_output_relname_to_id(relation_name(rel)) == Some(rel)
            && spec_input_relname_to_id(relation_name(rel)) is None,
{
    law_relname_of_relation(rel);
}

/// After a callback is set for `module` with level `max_level`, a message of
/// that module is logged exactly when its level is at most `max_level`.
pub proof fn law_log_after_set(
    levels: Map<log_module_t, log_log_level_t>,
    module: log_module_t,
    max_level: log_log_level_t,
    level: log_log_level_t,
)
    ensures
        spec_log_enabled(spec_log_configure(levels, module, true, max_level), module, level) <==> level
            <= max_level,
{
}

/// After the callback of `module` is removed, no message of that module is
/// logged, whatever its level.
pub proof fn law_log_after_unset(
    levels: Map<log_module_t, log_log_level_t>,
    module: log_module_t,
    max_level: log_log_level_t,
    level: log_log_level_t,
)
    ensures
        !spec_log_enabled(spec_log_configure(levels, module, false, max_level), module, level),
{
}

/// Setting or removing the callback of one module leaves every other module
/// logging as it did.
pub proof fn law_log_other_modules(
    levels: Map<log_module_t, log_log_level_t>,
    module: log_module_t,
    has_callback: bool,
    max_level: log_log_level_t,
    other: log_module_t,
    level: log_log_level_t,
)
    requires
        other != module,
    ensures
        spec_log_enabled(spec_log_configure(levels, module, has_callback, max_level), other, level)
            == spec_log_enabled(levels, other, level),
{
}

/// Joining `rest` after `a` puts `sep` between `a` and the join of `rest`.
proof fn lemma_join_prepend(a: Seq<char>, rest: Seq<Seq<char>>, sep: Seq<char>)
    requires
        rest.len() > 0,
    ensures
        seq_join(seq![a] + rest, sep) == a + sep + seq_join(rest, sep),
    decreases rest.len(),
{
    let l = seq![a] + rest;
    assert(l.len() >= 2);
    assert(seq_join(l, sep) == seq_join(l.drop_last(), sep) + sep + l.last());
    assert(l.last() == rest.last());
    if rest.len() == 1 {
        assert(l.drop_last() =~= seq![a]);
        assert(seq_join(seq![a], sep) == a);
        assert(seq_join(rest, sep) == rest[0]);
    } else {
        lemma_join_prepend(a, rest.drop_last(), sep);
        assert(l.drop_last() =~= seq![a] + rest.drop_last());
        assert(seq_join(rest, sep) == seq_join(rest.drop_last(), sep) + sep + rest.last());
        assert(a + sep + seq_join(rest.drop_last(), sep) + sep + rest.last() =~= a + sep + (
        seq_join(rest.drop_last(), sep) + sep + rest.last()));
    }
}

/// Joining the characters of `s`, each as a string of its own, with nothing
/// between them gives `s`.
proof fn lemma_join_chars(s: Seq<char>)
    ensures
        seq_join(s.map_values(|c: char| seq![c]), Seq::<char>::empty()) == s,
    decreases s.len(),
{
    let m = s.map_values(|c: char| seq![c]);
    if s.len() == 0 {
        assert(s =~= Seq::<char>::empty());
    } else if s.len() == 1 {
        assert(m[0] =~= s);
    } else {
        lemma_join_chars(s.drop_last());
        assert(m.drop_last() =~= s.drop_last().map_values(|c: char| seq![c]));
        assert(s.drop_last() + Seq::<char>::empty() + seq![s.last()] =~= s);
    }
}

/// `split_spec` gives at least one piece.
proof fn lemma_split_nonempty(s: Seq<char>, sep: Seq<char>)
    ensures
        split_spec(s, sep).len() > 0,
    decreases s.len(),
{
    if sep.len() > 0 {
        match first_occurrence(s, sep) {
            None => {},
            Some(i) => {
                if 0 <= i && i + sep.len() <= s.len() {
                    lemma_split_nonempty(s.skip(i + sep.len()), sep);
                }
            },
        }
    }
}

/// Joining the pieces of a split with the separator it split at gives back
/// the string: `join(split(s, sep), sep)` is `s`, for every separator,
/// the empty one too.
pub proof fn law_join_split(s: Seq<char>, sep: Seq<char>)
    ensures
        seq_join(split_spec(s, sep), sep) == s,
    decreases s.len(),
{
    if sep.len() == 0 {
        let e = Seq::<char>::empty();
        let m = s.map_values(|c: char| seq![c]);
        let tail = m + seq![e];
        assert(split_spec(s, sep) =~= seq![e] + tail);
        lemma_join_prepend(e, tail, sep);
        lemma_join_chars(s);
        assert(sep =~= e);
        if m.len() == 0 {
            assert(tail =~= seq![e]);
            assert(s =~= e);
        } else {
            assert(tail.drop_last() =~= m);
        }
        assert(e + sep + seq_join(tail, sep) =~= seq_join(tail, sep));
    } else {
        lemma_first_occurrence(s, sep);
        match first_occurrence(s, sep) {
            None => {},
            Some(i) => {
                if 0 <= i && i + sep.len() <= s.len() {
                    let rest = s.skip(i + sep.len());
                    law_join_split(rest, sep);
                    lemma_split_nonempty(rest, sep);
                    lemma_join_prepend(s.take(i), split_spec(rest, sep), sep);
                    assert(s.subrange(i, i + sep.len()) == sep);
                    assert(s.take(i) + sep + rest =~= s);
                }
            },
        }
    }
}

/// The decimal digits of `n` are digits, there is at least one, and they
/// write `n`.
proof fn lemma_decimal_text(n: nat)
    ensures
        decimal_text(n).len() > 0,
        all_decimal_digits(decimal_text(n)),
        decimal_value(decimal_text(n)) == n,
    decreases n,
{
    let d = n % 10;
    assert(digit_char(d) as int == '0' as int + d);
    if n < 10 {
        assert(decimal_text(n).drop_last() =~= Seq::<char>::empty());
        assert(decimal_value(decimal_text(n).drop_last()) == 0);
    } else {
        lemma_decimal_text(n / 10);
        let t = decimal_text(n);
        assert(t.drop_last() =~= decimal_text(n / 10));
        assert(t.last() == digit_char(n % 10));
        assert(n == (n / 10) * 10 + d);
        assert forall|i: int| 0 <= i < t.len() implies #[trigger] crate::strings::is_decimal_digit(
            t[i],
        ) by {
            if i < t.len() - 1 {
                assert(t[i] == decimal_text(n / 10)[i]);
            }
        }
    }
}

/// Parsing what displaying an unsigned integer writes gives the integer
/// back: `parse_dec_u64(to_string(x))` is `x`.
pub proof fn law_parse_dec_u64_of_display(x: u64)
    ensures
        spec_parse_dec_u64(decimal_text(x as nat)) == Some(x),
{
    lemma_decimal_text(x as nat);
    assert(decimal_text(x as nat)[0] != '+');
}

/// Parsing as a signed integer what displaying a natural number up to
/// `i64::MAX` writes gives the number back.
pub proof fn law_parse_dec_i64_of_display(x: u64)
    requires
        x <= i64::MAX,
    ensures
        spec_parse_dec_i64(decimal_text(x as nat)) == Some(x as i64),
{
    lemma_decimal_text(x as nat);
    assert(decimal_text(x as nat)[0] != '+');
    assert(decimal_text(x as nat)[0] != '-');
}

/// A read gives back what a write wrote, and a write changes no other key:
/// after `insert(m, k, v)`, `get(k)` is `v` and `get(k2)` is as before.
pub proof fn law_map_get_after_insert<K, V>(m: Map<K, V>, k: K, v: V, k2: K)
    ensures
        m.insert(k, v).contains_key(k),
        m.insert(k, v)[k] == v,
        k2 != k ==> m.insert(k, v).contains_key(k2) == m.contains_key(k2),
        k2 != k && m.contains_key(k2) ==> m.insert(k, v)[k2] == m[k2],
{
}

/// After `remove(m, k)`, `m` no longer maps `k` and maps every other key as
/// before.
pub proof fn law_map_get_after_remove<K, V>(m: Map<K, V>, k: K, k2: K)
    ensures
        !m.remove(k).contains_key(k),
        k2 != k ==> m.remove(k).contains_key(k2) == m.contains_key(k2),
        k2 != k && m.contains_key(k2) ==> m.remove(k)[k2] == m[k2],
{
}

/// The union of two maps maps the keys of either; where both map a key, it
/// takes the value of the second.
pub proof fn law_map_union<K, V>(m1: Map<K, V>, m2: Map<K, V>, k: K)
    ensures
        m1.union_prefer_right(m2).contains_key(k) <==> m1.contains_key(k) || m2.contains_key(k),
        m2.contains_key(k) ==> m1.union_prefer_right(m2)[k] == m2[k],
        m1.contains_key(k) && !m2.contains_key(k) ==> m1.union_prefer_right(m2)[k] == m1[k],
{
}

/// After adding `x` to a set, the set holds `x` and everything it held.
pub proof fn law_set_contains_after_insert<X>(s: Set<X>, x: X, y: X)
    ensures
        s.insert(x).contains(x),
        s.contains(y) ==> s.insert(x).contains(y),
        y != x ==> s.insert(x).contains(y) == s.contains(y),
{
}

/// The union of a sequence of sets holds exactly what one of them holds.
pub proof fn law_unions_contains<X>(ss: Seq<Set<X>>, x: X)
    ensures
        unions(ss).contains(x) <==> exists|i: int| 0 <= i < ss.len() && #[trigger] ss[i].contains(x),
    decreases ss.len(),
{
    if ss.len() > 0 {
        law_unions_contains(ss.drop_last(), x);
        if unions(ss).contains(x) {
            if !ss.last().contains(x) {
                let i = choose|i: int| 0 <= i < ss.drop_last().len() && #[trigger] ss.drop_last()[i].contains(x);
                assert(ss[i].contains(x));
            } else {
                assert(ss[ss.len() - 1].contains(x));
            }
        }
        if exists|i: int| 0 <= i < ss.len() && #[trigger] ss[i].contains(x) {
            let i = choose|i: int| 0 <= i < ss.len() && #[trigger] ss[i].contains(x);
            if i < ss.len() - 1 {
                assert(ss.drop_last()[i].contains(x));
            }
        }
    }
}

/// The map built from a sequence of pairs maps exactly the keys of the
/// pairs, each to the value of the last pair with that key.
pub proof fn law_map_of_pairs<K, V>(s: Seq<(K, V)>, k: K)
    ensures
        map_of_pairs(s).contains_key(k) <==> exists|i: int| 0 <= i < s.len() && #[trigger] s[i].0 == k,
        map_of_pairs(s).contains_key(k) ==> exists|i: int|
            {
                &&& 0 <= i < s.len()
                &&& #[trigger] s[i].0 == k
                &&& map_of_pairs(s)[k] == s[i].1
                &&& forall|j: int| i < j < s.len() ==> #[trigger] s[j].0 != k
            },
    decreases s.len(),
{
    if s.len() > 0 {
        let p = s.drop_last();
        law_map_of_pairs(p, k);
        let n = s.len() - 1;
        if s[n].0 == k {
            assert(s[n].0 == k && map_of_pairs(s)[k] == s[n].1);
        } else {
            if map_of_pairs(s).contains_key(k) {
                let i = choose|i: int|
                    {
                        &&& 0 <= i < p.len()
                        &&& #[trigger] p[i].0 == k
                        &&& map_of_pairs(p)[k] == p[i].1
                        &&& forall|j: int| i < j < p.len() ==> #[trigger] p[j].0 != k
                    };
                assert(s[i].0 == k);
                assert forall|j: int| i < j < s.len() implies #[trigger] s[j].0 != k by {
                    if j < n {
                        assert(p[j].0 != k);
                    }
                }
            }
            if exists|i: int| 0 <= i < s.len() && #[trigger] s[i].0 == k {
                let i = choose|i: int| 0 <= i < s.len() && #[trigger] s[i].0 == k;
                assert(p[i].0 == k);
            }
        }
    }
}

/// A range from `from` up to `to` in steps of `step` holds `from`,
/// `from + step`, `from + 2 * step`, ..., as many as do not pass `to`:
/// `(to - from) / step + 1` values, or none when `from` is past `to`.
pub proof fn law_range_values(from: int, to: int, step: int)
    requires
        step > 0,
    ensures
        range_seq(from, to, step).len() == (if from > to {
            0
        } else {
            (to - from) / step + 1
        }),
        forall|i: int|
            0 <= i < range_seq(from, to, step).len() ==> #[trigger] range_seq(from, to, step)[i]
                == from + i * step && range_seq(from, to, step)[i] <= to,
    decreases (if from <= to {
        to - from + 1
    } else {
        0
    }),
{
    if from <= to {
        let rest = range_seq(from + step, to, step);
        law_range_values(from + step, to, step);
        let r = range_seq(from, to, step);
        assert(r == seq![from] + rest);
        if from + step > to {
            vstd::arithmetic::div_mod::lemma_basic_div(to - from, step);
        } else {
            vstd::arithmetic::div_mod::lemma_div_plus_one(to - from - step, step);
            assert(step + (to - from - step) == to - from);
        }
        assert forall|i: int| 0 <= i < r.len() implies #[trigger] r[i] == from + i * step
            && r[i] <= to by {
            if i > 0 {
                assert(r[i] == rest[i - 1]);
                assert((i - 1) * step + step == i * step) by (nonlinear_arith);
            }
        }
    }
}

/// An alternative decodes the same from a positional record and from a
/// named one that holds the same payload under `l` (or `r`): it decodes
/// from both or from neither, to the same values, and fails with the same
/// message.
pub proof fn law_either_named_as_positional<A: FromRecord + Default, B: FromRecord + Default>(
    c: String,
    c2: String,
    pos: Vec<Record>,
    named: Vec<(String, Record)>,
    v: std_Either<A, B>,
)
    requires
        c@ == "std.Left"@ || c@ == "std.Right"@,
        c2@ == c@,
        pos@.len() == 1,
        named@.len() == 1,
        named@[0].1 == pos@[0],
        named@[0].0@ == (if c@ == "std.Left"@ {
            "l"@
        } else {
            "r"@
        }),
    ensures
        std_Either::<A, B>::decodes(Record::NamedStruct(c2, named)) == std_Either::<A, B>::decodes(
            Record::PosStruct(c, pos),
        ),
        std_Either::<A, B>::decodes_to(Record::NamedStruct(c2, named), v)
            == std_Either::<A, B>::decodes_to(Record::PosStruct(c, pos), v),
        std_Either::<A, B>::decode_error(Record::NamedStruct(c2, named))
            == std_Either::<A, B>::decode_error(Record::PosStruct(c, pos)),
{
    reveal_strlit("std.Left");
    reveal_strlit("std.Right");
    reveal_strlit("l");
    reveal_strlit("r");
    assert("std.Left"@.len() != "std.Right"@.len());
    assert(named@.drop_first().len() == 0);
}

/// A positional `redistributionspan.DdlogBinding` record holds its fields in the order of the
/// struct (`tn`, `entity`): it decodes exactly as the named record that gives
/// each of them by name, to the same values, and fails with the same message.
pub proof fn law_ddlogbinding_positional_as_named(
    c: String,
    c2: String,
    pos: Vec<Record>,
    named: Vec<(String, Record)>,
    tn: Record, entity: Record,
    v: redistributionspan_DdlogBinding,
)
    requires
        c@ == "redistributionspan.DdlogBinding"@,
        c2@ == c@,
        pos@ == seq![tn, entity],
        named@.len() == 2,
        named@[0].0@ == "tn"@,
        named@[0].1 == tn,
        named@[1].0@ == "entity"@,
        named@[1].1 == entity,
    ensures
        redistributionspan_DdlogBinding::decodes(Record::PosStruct(c, pos)) == redistributionspan_DdlogBinding::decodes(
            Record::NamedStruct(c2, named),
        ),
        redistributionspan_DdlogBinding::decodes_to(Record::PosStruct(c, pos), v) == redistributionspan_DdlogBinding::decodes_to(
            Record::NamedStruct(c2, named),
            v,
        ),
        redistributionspan_DdlogBinding::decode_error(Record::PosStruct(c, pos)) == redistributionspan_DdlogBinding::decode_error(
            Record::NamedStruct(c2, named),
        ),
{
    reveal_strlit("tn");
    reveal_strlit("entity");
    assert("tn"@ != "entity"@) by {
        assert("tn"@.len() != "entity"@.len() || "tn"@[0] != "entity"@[0]);
    }
    assert(first_field(named@, "tn"@) == Some(0int));
    assert(named@.drop_first()[0] == named@[1]);
    assert(first_field(named@.drop_first(), "entity"@) == Some(0int));
    assert(first_field(named@, "entity"@) == Some(1int));
}

/// Decoding a positional `redistributionspan.DdlogBinding` record puts its first integer in
/// `tn` and its second part in `entity`.
pub proof fn law_ddlogbinding_positional_fields(c: String, pos: Vec<Record>, tn: i128, entity: i128, v: redistributionspan_DdlogBinding)
    requires
        c@ == "redistributionspan.DdlogBinding"@,
        pos@ == seq![Record::Int(tn), Record::Int(entity)],
        0 <= tn <= 0xffff,
        0 <= entity <= 0xffff_ffff,
    ensures
        redistributionspan_DdlogBinding::decodes_to(Record::PosStruct(c, pos), v) ==> v.tn == tn && v.entity == entity,
{
}

/// A `redistributionspan.DdlogBinding` record has one text form: its debug form is its display
/// form, and a value holding it displays as the record does.
pub proof fn law_ddlogbinding_text_forms(x: redistributionspan_DdlogBinding)
    ensures
        x.debug_text() == x.display_text(),
        Value::redistributionspan_DdlogBinding(x).display_text() == x.display_text(),
{
}

/// A positional `redistributionspan.DdlogDependency` record holds its fields in the order of the
/// struct (`parent`, `child`): it decodes exactly as the named record that gives
/// each of them by name, to the same values, and fails with the same message.
pub proof fn law_ddlogdependency_positional_as_named(
    c: String,
    c2: String,
    pos: Vec<Record>,
    named: Vec<(String, Record)>,
    parent: Record, child: Record,
    v: redistributionspan_DdlogDependency,
)
    requires
        c@ == "redistributionspan.DdlogDependency"@,
        c2@ == c@,
        pos@ == seq![parent, child],
        named@.len() == 2,
        named@[0].0@ == "parent"@,
        named@[0].1 == parent,
        named@[1].0@ == "child"@,
        named@[1].1 == child,
    ensures
        redistributionspan_DdlogDependency::decodes(Record::PosStruct(c, pos)) == redistributionspan_DdlogDependency::decodes(
            Record::NamedStruct(c2, named),
        ),
        redistributionspan_DdlogDependency::decodes_to(Record::PosStruct(c, pos), v) == redistributionspan_DdlogDependency::decodes_to(
            Record::NamedStruct(c2, named),
            v,
        ),
        redistributionspan_DdlogDependency::decode_error(Record::PosStruct(c, pos)) == redistributionspan_DdlogDependency::decode_error(
            Record::NamedStruct(c2, named),
        ),
{
    reveal_strlit("parent");
    reveal_strlit("child");
    assert("parent"@ != "child"@) by {
        assert("parent"@.len() != "child"@.len() || "parent"@[0] != "child"@[0]);
    }
    assert(first_field(named@, "parent"@) == Some(0int));
    assert(named@.drop_first()[0] == named@[1]);
    assert(first_field(named@.drop_first(), "child"@) == Some(0int));
    assert(first_field(named@, "child"@) == Some(1int));
}

/// Decoding a positional `redistributionspan.DdlogDependency` record puts its first integer in
/// `parent` and its second part in `child`.
pub proof fn law_ddlogdependency_positional_fields(c: String, pos: Vec<Record>, parent: i128, child: i128, v: redistributionspan_DdlogDependency)
    requires
        c@ == "redistributionspan.DdlogDependency"@,
        pos@ == seq![Record::Int(parent), Record::Int(child)],
        0 <= parent <= 0xffff_ffff,
        0 <= child <= 0xffff_ffff,
    ensures
        redistributionspan_DdlogDependency::decodes_to(Record::PosStruct(c, pos), v) ==> v.parent == parent && v.child == child,
{
}

/// A `redistributionspan.DdlogDependency` record has one text form: its debug form is its display
/// form, and a value holding it displays as the record does.
pub proof fn law_ddlogdependency_text_forms(x: redistributionspan_DdlogDependency)
    ensures
        x.debug_text() == x.display_text(),
        Value::redistributionspan_DdlogDependency(x).display_text() == x.display_text(),
{
}

/// A positional `redistributionspan.DdlogNode` record holds its fields in the order of the
/// struct (`id`): it decodes exactly as the named record that gives
/// each of them by name, to the same values, and fails with the same message.
pub proof fn law_ddlognode_positional_as_named(
    c: String,
    c2: String,
    pos: Vec<Record>,
    named: Vec<(String, Record)>,
    id: Record,
    v: redistributionspan_DdlogNode,
)
    requires
        c@ == "redistributionspan.DdlogNode"@,
        c2@ == c@,
        pos@ == seq![id],
        named@.len() == 1,
        named@[0].0@ == "id"@,
        named@[0].1 == id,
    ensures
        redistributionspan_DdlogNode::decodes(Record::PosStruct(c, pos)) == redistributionspan_DdlogNode::decodes(
            Record::NamedStruct(c2, named),
        ),
        redistributionspan_DdlogNode::decodes_to(Record::PosStruct(c, pos), v) == redistributionspan_DdlogNode::decodes_to(
            Record::NamedStruct(c2, named),
            v,
        ),
        redistributionspan_DdlogNode::decode_error(Record::PosStruct(c, pos)) == redistributionspan_DdlogNode::decode_error(
            Record::NamedStruct(c2, named),
        ),
{
    reveal_strlit("id");
    assert(first_field(named@, "id"@) == Some(0int));
}

/// Decoding a positional `redistributionspan.DdlogNode` record puts its first integer in
/// `id`.
pub proof fn law_ddlognode_positional_fields(c: String, pos: Vec<Record>, id: i128, v: redistributionspan_DdlogNode)
    requires
        c@ == "redistributionspan.DdlogNode"@,
        pos@ == seq![Record::Int(id)],
        0 <= id <= 0xffff_ffff,
    ensures
        redistributionspan_DdlogNode::decodes_to(Record::PosStruct(c, pos), v) ==> v.id == id,
{
}

/// A `redistributionspan.DdlogNode` record has one text form: its debug form is its display
/// form, and a value holding it displays as the record does.
pub proof fn law_ddlognode_text_forms(x: redistributionspan_DdlogNode)
    ensures
        x.debug_text() == x.display_text(),
        Value::redistributionspan_DdlogNode(x).display_text() == x.display_text(),
{
}

/// A positional `redistributionspan.Span` record holds its fields in the order of the
/// struct (`entity`, `tns`): it decodes exactly as the named record that gives
/// each of them by name, to the same values, and fails with the same message.
pub proof fn law_span_positional_as_named(
    c: String,
    c2: String,
    pos: Vec<Record>,
    named: Vec<(String, Record)>,
    entity: Record, tns: Record,
    v: redistributionspan_Span,
)
    requires
        c@ == "redistributionspan.Span"@,
        c2@ == c@,
        pos@ == seq![entity, tns],
        named@.len() == 2,
        named@[0].0@ == "entity"@,
        named@[0].1 == entity,
        named@[1].0@ == "tns"@,
        named@[1].1 == tns,
    ensures
        redistributionspan_Span::decodes(Record::PosStruct(c, pos)) == redistributionspan_Span::decodes(
            Record::NamedStruct(c2, named),
        ),
        redistributionspan_Span::decodes_to(Record::PosStruct(c, pos), v) == redistributionspan_Span::decodes_to(
            Record::NamedStruct(c2, named),
            v,
        ),
        redistributionspan_Span::decode_error(Record::PosStruct(c, pos)) == redistributionspan_Span::decode_error(
            Record::NamedStruct(c2, named),
        ),
{
    reveal_strlit("entity");
    reveal_strlit("tns");
    assert("entity"@ != "tns"@) by {
        assert("entity"@.len() != "tns"@.len() || "entity"@[0] != "tns"@[0]);
    }
    assert(first_field(named@, "entity"@) == Some(0int));
    assert(named@.drop_first()[0] == named@[1]);
    assert(first_field(named@.drop_first(), "tns"@) == Some(0int));
    assert(first_field(named@, "tns"@) == Some(1int));
}

/// Decoding a positional `redistributionspan.Span` record puts its first integer in
/// `entity` and its second part in `tns`.
pub proof fn law_span_positional_fields(c: String, pos: Vec<Record>, entity: i128, tns: Record, v: redistributionspan_Span)
    requires
        c@ == "redistributionspan.Span"@,
        pos@ == seq![Record::Int(entity), tns],
        0 <= entity <= 0xffff_ffff,
    ensures
        redistributionspan_Span::decodes_to(Record::PosStruct(c, pos), v) ==> v.entity == entity && std_Set::<u16>::decodes_to(tns, v.tns),
{
}

/// A `redistributionspan.Span` record has one text form: its debug form is its display
/// form, and a value holding it displays as the record does.
pub proof fn law_span_text_forms(x: redistributionspan_Span)
    ensures
        x.debug_text() == x.display_text(),
        Value::redistributionspan_Span(Box::new(x)).display_text() == x.display_text(),
{
}

/// The display form of a `redistributionspan.DdlogDependency` record lists
/// its fields in the order in which a positional record gives them:
/// `parent`, then `child`, each in decimal.
pub proof fn law_dependency_display_follows_fields(
    c: String,
    pos: Vec<Record>,
    parent: i128,
    child: i128,
    v: redistributionspan_DdlogDependency,
)
    requires
        c@ == "redistributionspan.DdlogDependency"@,
        pos@ == seq![Record::Int(parent), Record::Int(child)],
        0 <= parent <= 0xffff_ffff,
        0 <= child <= 0xffff_ffff,
        redistributionspan_DdlogDependency::decodes_to(Record::PosStruct(c, pos), v),
    ensures
        v.display_text() == "redistributionspan.DdlogDependency{"@ + decimal_text(parent as nat)
            + ","@ + decimal_text(child as nat) + "}"@,
        v.display_text() == Value::redistributionspan_DdlogDependency(v).display_text(),
{
}

/// The display form of a `redistributionspan.DdlogBinding` record lists its
/// fields in the order in which a positional record gives them: `tn`, then
/// `entity`, each in decimal.
pub proof fn law_binding_display_follows_fields(
    c: String,
    pos: Vec<Record>,
    tn: i128,
    entity: i128,
    v: redistributionspan_DdlogBinding,
)
    requires
        c@ == "redistributionspan.DdlogBinding"@,
        pos@ == seq![Record::Int(tn), Record::Int(entity)],
        0 <= tn <= 0xffff,
        0 <= entity <= 0xffff_ffff,
        redistributionspan_DdlogBinding::decodes_to(Record::PosStruct(c, pos), v),
    ensures
        v.display_text() == "redistributionspan.DdlogBinding{"@ + decimal_text(tn as nat) + ","@
            + decimal_text(entity as nat) + "}"@,
        v.display_text() == Value::redistributionspan_DdlogBinding(v).display_text(),
{
}

/// Displaying an unsigned integer writes its decimal digits, which parse
/// back to it: `parse_dec_u64(to_string(x)) == x` for `u16`, `u32` and
/// `u64`, in the display and in the debug form.
pub proof fn law_parse_of_integer_text(a: u16, b: u32, c: u64)
    ensures
        a.display_text() == decimal_text(a as nat),
        b.display_text() == decimal_text(b as nat),
        c.display_text() == decimal_text(c as nat),
        spec_parse_dec_u64(a.display_text()) == Some(a as u64),
        spec_parse_dec_u64(b.display_text()) == Some(b as u64),
        spec_parse_dec_u64(c.display_text()) == Some(c),
        spec_parse_dec_u64(a.debug_text()) == Some(a as u64),
        spec_parse_dec_u64(b.debug_text()) == Some(b as u64),
        spec_parse_dec_u64(c.debug_text()) == Some(c),
{
    law_parse_dec_u64_of_display(a as u64);
    law_parse_dec_u64_of_display(b as u64);
    law_parse_dec_u64_of_display(c);
}

/// Parsing `-` followed by the decimal digits of `n` gives `-n`, for every
/// `n` from 0 to 2^63: the negative numbers that `i64` holds, and zero.
pub proof fn law_parse_dec_i64_of_negative(n: nat)
    requires
        n <= 0x8000_0000_0000_0000,
    ensures
        spec_parse_dec_i64("-"@ + decimal_text(n)) == Some((-n) as i64),
{
    lemma_decimal_text(n);
    reveal_strlit("-");
    let s = "-"@ + decimal_text(n);
    assert(s[0] == '-');
    assert(s.drop_first() =~= decimal_text(n));
}

} // verus!
