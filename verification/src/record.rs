//! Records: the untyped form in which values enter and leave the program,
//! and their decoding into the program's typed values.
use vstd::prelude::*;
use crate::option::{std_Option, std_Either};
use crate::vec::std_Vec;
use crate::set::std_Set;
use crate::map::std_Map;
use crate::group::map_of_pairs;
use crate::order::lawful_order;
use std::collections::BTreeMap;
use crate::format::{int_text, debug_quoted, i128_decimal, str_debug};

verus! {

broadcast use vstd::std_specs::btree::group_btree_axioms;

/// Which collection an array record stands for.
#[derive(Clone, Copy, Debug, PartialEq, Eq)]
pub enum CollectionKind {
    Unknown,
    Vector,
    SetOf,
    MapOf,
}

/// An untyped value: a boolean, an integer, a string, or a composition of
/// records as a tuple, a collection, or a struct with positional or named
/// fields.
#[derive(Debug)]
pub enum Record {
    Bool(bool),
    Int(i128),
    String(String),
    Tuple(Vec<Record>),
    Array(CollectionKind, Vec<Record>),
    PosStruct(String, Vec<Record>),
    NamedStruct(String, Vec<(String, Record)>),
}

/// How `Debug` writes a collection kind: the name of its variant.
pub open spec fn kind_debug(k: CollectionKind) -> Seq<char> {
    match k {
        CollectionKind::Unknown => "Unknown"@,
        CollectionKind::Vector => "Vector"@,
        CollectionKind::SetOf => "SetOf"@,
        CollectionKind::MapOf => "MapOf"@,
    }
}

/// How `Debug` writes a record: the variant's name and, in parentheses, its
/// parts, lists in brackets separated by `, `.
pub open spec fn record_debug(r: Record) -> Seq<char>
    decreases r,
{
    match r {
        Record::Bool(b) => "Bool("@ + (if b {
            "true"@
        } else {
            "false"@
        }) + ")"@,
        Record::Int(i) => "Int("@ + int_text(i as int) + ")"@,
        Record::String(s) => "String("@ + debug_quoted(s@) + ")"@,
        Record::Tuple(args) => "Tuple(["@ + records_debug(args@) + "])"@,
        Record::Array(k, args) => "Array("@ + kind_debug(k) + ", ["@ + records_debug(args@) + "])"@,
        Record::PosStruct(c, args) => "PosStruct("@ + debug_quoted(c@) + ", ["@ + records_debug(
            args@,
        ) + "])"@,
        Record::NamedStruct(c, args) => "NamedStruct("@ + debug_quoted(c@) + ", ["@
            + fields_debug(args@) + "])"@,
    }
}

/// How `Debug` writes the records of a list, separated by `, `.
pub open spec fn records_debug(rs: Seq<Record>) -> Seq<char>
    decreases rs,
{
    if rs.len() == 0 {
        Seq::empty()
    } else if rs.len() == 1 {
        record_debug(rs[0])
    } else {
        records_debug(rs.drop_last()) + ", "@ + record_debug(rs.last())
    }
}

/// How `Debug` writes named fields, each as `("name", record)`, separated by `, `.
pub open spec fn fields_debug(fs: Seq<(String, Record)>) -> Seq<char>
    decreases fs,
{
    if fs.len() == 0 {
        Seq::empty()
    } else if fs.len() == 1 {
        "("@ + debug_quoted(fs[0].0@) + ", "@ + record_debug(fs[0].1) + ")"@
    } else {
        fields_debug(fs.drop_last()) + ", "@ + ("("@ + debug_quoted(fs.last().0@) + ", "@
            + record_debug(fs.last().1) + ")"@)
    }
}

/// The text that `Debug` writes for `r`.
pub fn record_debug_string(r: &Record) -> (res: String)
    ensures
        res@ == record_debug(*r),
    decreases r,
{
    match r {
        Record::Bool(b) => {
            let mut s = String::from_str("Bool(");
            if *b {
                s.append("true");
            } else {
                s.append("false");
            }
            s.append(")");
            s
        },
        Record::Int(i) => {
            let mut s = String::from_str("Int(");
            let t = i128_decimal(*i);
            s.append(t.as_str());
            s.append(")");
            s
        },
        Record::String(x) => {
            let mut s = String::from_str("String(");
            let t = str_debug(x.as_str());
            s.append(t.as_str());
            s.append(")");
            s
        },
        Record::Tuple(args) => {
            let mut s = String::from_str("Tuple([");
            let t = records_debug_string(args);
            s.append(t.as_str());
            s.append("])");
            s
        },
        Record::Array(k, args) => {
            let mut s = String::from_str("Array(");
            let kn = match k {
                CollectionKind::Unknown => "Unknown",
                CollectionKind::Vector => "Vector",
                CollectionKind::SetOf => "SetOf",
                CollectionKind::MapOf => "MapOf",
            };
            s.append(kn);
            s.append(", [");
            let t = records_debug_string(args);
            s.append(t.as_str());
            s.append("])");
            s
        },
        Record::PosStruct(c, args) => {
            let mut s = String::from_str("PosStruct(");
            let q = str_debug(c.as_str());
            s.append(q.as_str());
            s.append(", [");
            let t = records_debug_string(args);
            s.append(t.as_str());
            s.append("])");
            s
        },
        Record::NamedStruct(c, args) => {
            let mut s = String::from_str("NamedStruct(");
            let q = str_debug(c.as_str());
            s.append(q.as_str());
            s.append(", [");
            let t = fields_debug_string(args);
            s.append(t.as_str());
            s.append("])");
            s
        },
    }
}

/// The text that `Debug` writes for the records of `rs`, separated by `, `.
fn records_debug_string(rs: &Vec<Record>) -> (res: String)
    ensures
        res@ == records_debug(rs@),
    decreases rs,
{
    let mut s = String::new();
    let mut i: usize = 0;
    while i < rs.len()
        invariant
            i <= rs@.len(),
            s@ == records_debug(rs@.take(i as int)),
        decreases rs@.len() - i,
    {
        if i != 0 {
            s.append(", ");
        }
        proof {
            assert(decreases_to!(rs => rs@));
        }
        let t = record_debug_string(&rs[i]);
        s.append(t.as_str());
        assert(rs@.take(i + 1).drop_last() =~= rs@.take(i as int));
        i = i + 1;
    }
    assert(rs@.take(rs@.len() as int) =~= rs@);
    s
}

/// The text that `Debug` writes for named fields, separated by `, `.
fn fields_debug_string(fs: &Vec<(String, Record)>) -> (res: String)
    ensures
        res@ == fields_debug(fs@),
    decreases fs,
{
    let mut s = String::new();
    let mut i: usize = 0;
    while i < fs.len()
        invariant
            i <= fs@.len(),
            s@ == fields_debug(fs@.take(i as int)),
        decreases fs@.len() - i,
    {
        if i != 0 {
            s.append(", ");
        }
        s.append("(");
        let q = str_debug(fs[i].0.as_str());
        s.append(q.as_str());
        s.append(", ");
        proof {
            assert(decreases_to!(fs => fs@));
        }
        let t = record_debug_string(&fs[i].1);
        s.append(t.as_str());
        s.append(")");
        assert(fs@.take(i + 1).drop_last() =~= fs@.take(i as int));
        i = i + 1;
    }
    assert(fs@.take(fs@.len() as int) =~= fs@);
    s
}

/// Types whose values can be decoded from records.
pub trait FromRecord: Sized {
    /// Whether `r` stands for some value of the type.
    spec fn decodes(r: Record) -> bool;

    /// Whether `r` stands for the value `v`.
    spec fn decodes_to(r: Record, v: Self) -> bool;

    /// The message with which decoding `r` fails, where it fails.
    spec fn decode_error(r: Record) -> Seq<char>;

    /// Decodes `val`, or says why it cannot be decoded.
    fn from_record(val: &Record) -> (res: Result<Self, String>)
        ensures
            res is Ok <==> Self::decodes(*val),
            res matches Ok(v) ==> Self::decodes_to(*val, v),
            res matches Err(e) ==> e@ == Self::decode_error(*val),
    ;
}

/// `<str as PartialEq>::eq`: whether two strings hold the same characters.
#[verifier::external_body]
pub(crate) fn str_eq(a: &str, b: &str) -> (res: bool)
    ensures
        res == (a@ == b@),
{
    a == b
}

/// The message for a record whose constructor `constr` is not one of `tname`.
pub open spec fn unknown_constructor_message(constr: Seq<char>, tname: Seq<char>, r: Record) -> Seq<
    char,
> {
    "unknown constructor "@ + constr + " of type "@ + tname + " in "@ + record_debug(r)
}

/// The message for a record that is not a struct.
pub open spec fn not_a_struct_message(r: Record) -> Seq<char> {
    "not a struct "@ + record_debug(r)
}

/// The message for a record that is not of the kind `expected` that a type
/// is decoded from.
pub open spec fn wrong_record_message(expected: Seq<char>, r: Record) -> Seq<char> {
    "not "@ + expected + " "@ + record_debug(r)
}

/// The message for the integer `i` that does not fit the integer type `tname`.
pub open spec fn int_range_message(tname: Seq<char>, i: int) -> Seq<char> {
    "cannot convert "@ + int_text(i) + " to "@ + tname
}

/// The message for a named struct that lacks the field `name`.
pub open spec fn missing_field_message(name: Seq<char>) -> Seq<char> {
    "missing field "@ + name
}

/// The message for a record whose constructor `constr` is not one of `tname`.
pub(crate) fn unknown_constructor_error(constr: &str, tname: &str, val: &Record) -> (res: String)
    ensures
        res@ == unknown_constructor_message(constr@, tname@, *val),
{
    let mut s = String::from_str("unknown constructor ");
    s.append(constr);
    s.append(" of type ");
    s.append(tname);
    s.append(" in ");
    let t = record_debug_string(val);
    s.append(t.as_str());
    s
}

/// The message for a record that is not a struct.
pub(crate) fn not_a_struct_error(val: &Record) -> (res: String)
    ensures
        res@ == not_a_struct_message(*val),
{
    let mut s = String::from_str("not a struct ");
    let t = record_debug_string(val);
    s.append(t.as_str());
    s
}

/// The message for a record that is not of the kind that a type is decoded from.
pub(crate) fn wrong_record_error(expected: &str, val: &Record) -> (res: String)
    ensures
        res@ == wrong_record_message(expected@, *val),
{
    let mut s = String::from_str("not ");
    s.append(expected);
    s.append(" ");
    let t = record_debug_string(val);
    s.append(t.as_str());
    s
}

/// The message for an integer record that does not fit the integer type.
pub(crate) fn int_range_error(tname: &str, i: i128) -> (res: String)
    ensures
        res@ == int_range_message(tname@, i as int),
{
    let mut s = String::from_str("cannot convert ");
    let t = i128_decimal(i);
    s.append(t.as_str());
    s.append(" to ");
    s.append(tname);
    s
}

/// The message for a named struct that lacks the field `name`.
pub(crate) fn missing_field_error(name: &str) -> (res: String)
    ensures
        res@ == missing_field_message(name@),
{
    let mut s = String::from_str("missing field ");
    s.append(name);
    s
}

/// The position of the first field of `args` named `name`, if there is one.
pub open spec fn first_field(args: Seq<(String, Record)>, name: Seq<char>) -> Option<int>
    decreases args.len(),
{
    if args.len() == 0 {
        None
    } else if args[0].0@ == name {
        Some(0)
    } else {
        match first_field(args.drop_first(), name) {
            Some(i) => Some(i + 1),
            None => None,
        }
    }
}

proof fn lemma_first_field(args: Seq<(String, Record)>, name: Seq<char>)
    ensures
        first_field(args, name) matches Some(i) ==> 0 <= i < args.len() && args[i].0@ == name
            && forall|j: int| 0 <= j < i ==> args[j].0@ != name,
        first_field(args, name) is None ==> forall|j: int|
            0 <= j < args.len() ==> args[j].0@ != name,
    decreases args.len(),
{
    if args.len() > 0 {
        lemma_first_field(args.drop_first(), name);
        if args[0].0@ != name {
            assert forall|j: int| 1 <= j < args.len() implies args[j].0@ == args.drop_first()[j
                - 1].0@ by {}
        }
    }
}

/// Whether the named fields `args` hold a field `name` that decodes.
pub open spec fn field_decodes<T: FromRecord>(args: Seq<(String, Record)>, name: Seq<char>) -> bool {
    first_field(args, name) matches Some(i) && T::decodes(args[i].1)
}

/// Whether the first field of `args` named `name` decodes to `v`.
pub open spec fn field_decodes_to<T: FromRecord>(
    args: Seq<(String, Record)>,
    name: Seq<char>,
    v: T,
) -> bool {
    first_field(args, name) matches Some(i) && T::decodes_to(args[i].1, v)
}

/// The message with which the first field of `args` named `name` fails to
/// decode, or the message for a missing field.
pub open spec fn field_error<T: FromRecord>(args: Seq<(String, Record)>, name: Seq<char>) -> Seq<
    char,
> {
    match first_field(args, name) {
        Some(i) => T::decode_error(args[i].1),
        None => missing_field_message(name),
    }
}

/// Decodes the value of the first field of `args` named `argname`.
pub fn arg_extract<T: FromRecord>(args: &Vec<(String, Record)>, argname: &str) -> (res: Result<
    T,
    String,
>)
    ensures
        res is Ok <==> field_decodes::<T>(args@, argname@),
        res matches Ok(v) ==> field_decodes_to(args@, argname@, v),
        res matches Err(e) ==> e@ == field_error::<T>(args@, argname@),
{
    proof {
        lemma_first_field(args@, argname@);
    }
    let mut i: usize = 0;
    while i < args.len()
        invariant
            i <= args@.len(),
            forall|j: int| 0 <= j < i ==> args@[j].0@ != argname@,
            first_field(args@, argname@) matches Some(k) ==> 0 <= k < args@.len() && args@[k].0@
                == argname@ && forall|j: int| 0 <= j < k ==> args@[j].0@ != argname@,
            first_field(args@, argname@) is None ==> forall|j: int|
                0 <= j < args@.len() ==> args@[j].0@ != argname@,
        decreases args@.len() - i,
    {
        if str_eq(args[i].0.as_str(), argname) {
            assert(first_field(args@, argname@) == Some(i as int));
            return T::from_record(&args[i].1);
        }
        i = i + 1;
    }
    Err(missing_field_error(argname))
}

impl FromRecord for bool {
    open spec fn decodes(r: Record) -> bool {
        r is Bool
    }

    open spec fn decodes_to(r: Record, v: bool) -> bool {
        r == Record::Bool(v)
    }

    open spec fn decode_error(r: Record) -> Seq<char> {
        wrong_record_message("a bool"@, r)
    }

    fn from_record(val: &Record) -> (res: Result<bool, String>) {
        match val {
            Record::Bool(b) => Ok(*b),
            _ => Err(wrong_record_error("a bool", val)),
        }
    }
}

impl FromRecord for String {
    open spec fn decodes(r: Record) -> bool {
        r is String
    }

    open spec fn decodes_to(r: Record, v: String) -> bool {
        r matches Record::String(s) && s@ == v@
    }

    open spec fn decode_error(r: Record) -> Seq<char> {
        wrong_record_message("a string"@, r)
    }

    fn from_record(val: &Record) -> (res: Result<String, String>) {
        match val {
            Record::String(s) => Ok(s.clone()),
            _ => Err(wrong_record_error("a string", val)),
        }
    }
}

impl FromRecord for u16 {
    open spec fn decodes(r: Record) -> bool {
        r matches Record::Int(i) && 0 <= i <= u16::MAX
    }

    open spec fn decodes_to(r: Record, v: u16) -> bool {
        r == Record::Int(v as i128)
    }

    open spec fn decode_error(r: Record) -> Seq<char> {
        match r {
            Record::Int(i) => int_range_message("u16"@, i as int),
            _ => wrong_record_message("an int"@, r),
        }
    }

    fn from_record(val: &Record) -> (res: Result<u16, String>) {
        match val {
            Record::Int(i) => {
                if 0 <= *i && *i <= 65535 {
                    Ok(*i as u16)
                } else {
                    Err(int_range_error("u16", *i))
                }
            },
            _ => Err(wrong_record_error("an int", val)),
        }
    }
}

impl FromRecord for u32 {
    open spec fn decodes(r: Record) -> bool {
        r matches Record::Int(i) && 0 <= i <= u32::MAX
    }

    open spec fn decodes_to(r: Record, v: u32) -> bool {
        r == Record::Int(v as i128)
    }

    open spec fn decode_error(r: Record) -> Seq<char> {
        match r {
            Record::Int(i) => int_range_message("u32"@, i as int),
            _ => wrong_record_message("an int"@, r),
        }
    }

    fn from_record(val: &Record) -> (res: Result<u32, String>) {
        match val {
            Record::Int(i) => {
                if 0 <= *i && *i <= 4294967295 {
                    Ok(*i as u32)
                } else {
                    Err(int_range_error("u32", *i))
                }
            },
            _ => Err(wrong_record_error("an int", val)),
        }
    }
}

impl FromRecord for u64 {
    open spec fn decodes(r: Record) -> bool {
        r matches Record::Int(i) && 0 <= i <= u64::MAX
    }

    open spec fn decodes_to(r: Record, v: u64) -> bool {
        r == Record::Int(v as i128)
    }

    open spec fn decode_error(r: Record) -> Seq<char> {
        match r {
            Record::Int(i) => int_range_message("u64"@, i as int),
            _ => wrong_record_message("an int"@, r),
        }
    }

    fn from_record(val: &Record) -> (res: Result<u64, String>) {
        match val {
            Record::Int(i) => {
                if 0 <= *i && *i <= 18446744073709551615 {
                    Ok(*i as u64)
                } else {
                    Err(int_range_error("u64", *i))
                }
            },
            _ => Err(wrong_record_error("an int", val)),
        }
    }
}

impl FromRecord for i64 {
    open spec fn decodes(r: Record) -> bool {
        r matches Record::Int(i) && i64::MIN <= i <= i64::MAX
    }

    open spec fn decodes_to(r: Record, v: i64) -> bool {
        r == Record::Int(v as i128)
    }

    open spec fn decode_error(r: Record) -> Seq<char> {
        match r {
            Record::Int(i) => int_range_message("i64"@, i as int),
            _ => wrong_record_message("an int"@, r),
        }
    }

    fn from_record(val: &Record) -> (res: Result<i64, String>) {
        match val {
            Record::Int(i) => {
                if -9223372036854775808 <= *i && *i <= 9223372036854775807 {
                    Ok(*i as i64)
                } else {
                    Err(int_range_error("i64", *i))
                }
            },
            _ => Err(wrong_record_error("an int", val)),
        }
    }
}

/// Whether every record of `rs` decodes.
pub open spec fn all_decode<T: FromRecord>(rs: Seq<Record>) -> bool {
    forall|i: int| 0 <= i < rs.len() ==> #[trigger] T::decodes(rs[i])
}

/// Whether the records `rs` decode, one by one, to the values `vs`.
pub open spec fn all_decode_to<T: FromRecord>(rs: Seq<Record>, vs: Seq<T>) -> bool {
    &&& rs.len() == vs.len()
    &&& forall|i: int| 0 <= i < rs.len() ==> #[trigger] T::decodes_to(rs[i], vs[i])
}

/// The message with which the first record of `rs` that does not decode
/// fails.
pub open spec fn all_decode_error<T: FromRecord>(rs: Seq<Record>) -> Seq<char>
    decreases rs.len(),
{
    if rs.len() == 0 {
        Seq::empty()
    } else if !T::decodes(rs[0]) {
        T::decode_error(rs[0])
    } else {
        all_decode_error::<T>(rs.drop_first())
    }
}

/// Where the records before position `i` decode and the one at `i` does
/// not, the first failure is at `i`.
proof fn lemma_all_decode_error<T: FromRecord>(rs: Seq<Record>, i: int)
    requires
        0 <= i < rs.len(),
        forall|j: int| 0 <= j < i ==> #[trigger] T::decodes(rs[j]),
        !T::decodes(rs[i]),
    ensures
        all_decode_error::<T>(rs) == T::decode_error(rs[i]),
    decreases i,
{
    if i > 0 {
        assert(T::decodes(rs[0]));
        assert forall|j: int| 0 <= j < i - 1 implies #[trigger] T::decodes(rs.drop_first()[j]) by {
            assert(T::decodes(rs[j + 1]));
        }
        lemma_all_decode_error::<T>(rs.drop_first(), i - 1);
    }
}

/// Decodes the records `rs` one by one, or says why one of them cannot be
/// decoded.
pub fn decode_all<T: FromRecord>(rs: &Vec<Record>) -> (res: Result<Vec<T>, String>)
    ensures
        res is Ok <==> all_decode::<T>(rs@),
        res matches Ok(vs) ==> all_decode_to(rs@, vs@),
        res matches Err(e) ==> e@ == all_decode_error::<T>(rs@),
{
    let mut vs: Vec<T> = Vec::new();
    let mut i: usize = 0;
    while i < rs.len()
        invariant
            i <= rs@.len(),
            vs@.len() == i,
            forall|j: int| 0 <= j < i ==> #[trigger] T::decodes(rs@[j]),
            forall|j: int| 0 <= j < i ==> #[trigger] T::decodes_to(rs@[j], vs@[j]),
        decreases rs@.len() - i,
    {
        match T::from_record(&rs[i]) {
            Ok(v) => {
                vs.push(v);
            },
            Err(e) => {
                proof {
                    lemma_all_decode_error::<T>(rs@, i as int);
                }
                return Err(e);
            },
        }
        i = i + 1;
    }
    Ok(vs)
}

impl<T: FromRecord> FromRecord for std_Vec<T> {
    open spec fn decodes(r: Record) -> bool {
        r matches Record::Array(_, args) && all_decode::<T>(args@)
    }

    open spec fn decodes_to(r: Record, v: std_Vec<T>) -> bool {
        r matches Record::Array(_, args) && all_decode_to(args@, v@)
    }

    /// The error of the first element that does not decode.
    open spec fn decode_error(r: Record) -> Seq<char> {
        match r {
            Record::Array(_, args) => all_decode_error::<T>(args@),
            _ => wrong_record_message("an array"@, r),
        }
    }

    fn from_record(val: &Record) -> (res: Result<std_Vec<T>, String>) {
        match val {
            Record::Array(_, args) => match decode_all::<T>(args) {
                Ok(vs) => Ok(std_Vec { x: vs }),
                Err(e) => Err(e),
            },
            _ => Err(wrong_record_error("an array", val)),
        }
    }
}

impl<T: FromRecord + Ord> FromRecord for std_Set<T> {
    open spec fn decodes(r: Record) -> bool {
        r matches Record::Array(_, args) && all_decode::<T>(args@)
    }

    open spec fn decodes_to(r: Record, v: std_Set<T>) -> bool {
        r matches Record::Array(_, args) && (lawful_order::<T>() ==> exists|vs: Seq<T>|
            all_decode_to(args@, vs) && v@ == vs.to_set())
    }

    /// The error of the first element that does not decode.
    open spec fn decode_error(r: Record) -> Seq<char> {
        match r {
            Record::Array(_, args) => all_decode_error::<T>(args@),
            _ => wrong_record_message("an array"@, r),
        }
    }

    fn from_record(val: &Record) -> (res: Result<std_Set<T>, String>) {
        match val {
            Record::Array(_, args) => match decode_all::<T>(args) {
                Ok(vs) => {
                    let ghost dec = vs@;
                    let mut s: std_Set<T> = std_Set::new();
                    let mut vs = vs;
                    while vs.len() > 0
                        invariant
                            vs@.len() <= dec.len(),
                            vs@ == dec.take(vs@.len() as int),
                            lawful_order::<T>() ==> s@ == dec.skip(vs@.len() as int).to_set(),
                        decreases vs@.len(),
                    {
                        let ghost n = vs@.len();
                        let ghost before = vs@;
                        let e = vs.pop().unwrap();
                        assert(before[n - 1] == dec.take(n as int)[n - 1]);
                        assert(vs@ =~= dec.take(n - 1));
                        assert(dec.skip(n - 1) =~= seq![e] + dec.skip(n as int));
                        s.x.insert(e);
                        proof {
                            vstd::seq_lib::seq_to_set_distributes_over_add(
                                seq![e],
                                dec.skip(n as int),
                            );
                            assert(seq![e].to_set() =~= set![e]) by {
                                assert(seq![e].contains(e) == (seq![e][0] == e));
                            }
                        }
                    }
                    assert(dec.skip(0) =~= dec);
                    Ok(s)
                },
                Err(e) => Err(e),
            },
            _ => Err(wrong_record_error("an array", val)),
        }
    }
}

/// Whether `r` is a pair record whose parts decode as a key and a value.
pub open spec fn pair_decodes<K: FromRecord, V: FromRecord>(r: Record) -> bool {
    r matches Record::Tuple(kv) && kv@.len() == 2 && K::decodes(kv@[0]) && V::decodes(kv@[1])
}

/// Whether `r` is a pair record that decodes to the key and value of `p`.
pub open spec fn pair_decodes_to<K: FromRecord, V: FromRecord>(r: Record, p: (K, V)) -> bool {
    r matches Record::Tuple(kv) && kv@.len() == 2 && K::decodes_to(kv@[0], p.0) && V::decodes_to(
        kv@[1],
        p.1,
    )
}

/// Whether every record of `rs` is a pair record that decodes.
pub open spec fn all_pairs_decode<K: FromRecord, V: FromRecord>(rs: Seq<Record>) -> bool {
    forall|i: int| 0 <= i < rs.len() ==> #[trigger] pair_decodes::<K, V>(rs[i])
}

/// The message with which a record fails to decode as a pair: the error of
/// its key, else of its value, or the message for a record that is not a pair.
pub open spec fn pair_decode_error<K: FromRecord, V: FromRecord>(r: Record) -> Seq<char> {
    match r {
        Record::Tuple(kv) => if kv@.len() != 2 {
            wrong_record_message("a 2-tuple"@, r)
        } else if !K::decodes(kv@[0]) {
            K::decode_error(kv@[0])
        } else {
            V::decode_error(kv@[1])
        },
        _ => wrong_record_message("a 2-tuple"@, r),
    }
}

/// The message with which the first record of `rs` that does not decode as
/// a pair fails.
pub open spec fn all_pairs_decode_error<K: FromRecord, V: FromRecord>(rs: Seq<Record>) -> Seq<char>
    decreases rs.len(),
{
    if rs.len() == 0 {
        Seq::empty()
    } else if !pair_decodes::<K, V>(rs[0]) {
        pair_decode_error::<K, V>(rs[0])
    } else {
        all_pairs_decode_error::<K, V>(rs.drop_first())
    }
}

/// Where the records before position `i` decode as pairs and the one at `i`
/// does not, the first failure is at `i`.
proof fn lemma_all_pairs_decode_error<K: FromRecord, V: FromRecord>(rs: Seq<Record>, i: int)
    requires
        0 <= i < rs.len(),
        forall|j: int| 0 <= j < i ==> #[trigger] pair_decodes::<K, V>(rs[j]),
        !pair_decodes::<K, V>(rs[i]),
    ensures
        all_pairs_decode_error::<K, V>(rs) == pair_decode_error::<K, V>(rs[i]),
    decreases i,
{
    if i > 0 {
        assert(pair_decodes::<K, V>(rs[0]));
        assert forall|j: int| 0 <= j < i - 1 implies #[trigger] pair_decodes::<K, V>(
            rs.drop_first()[j],
        ) by {
            assert(pair_decodes::<K, V>(rs[j + 1]));
        }
        lemma_all_pairs_decode_error::<K, V>(rs.drop_first(), i - 1);
    }
}

/// Decodes a pair record into a key and a value.
fn pair_from_record<K: FromRecord, V: FromRecord>(val: &Record) -> (res: Result<(K, V), String>)
    ensures
        res is Ok <==> pair_decodes::<K, V>(*val),
        res matches Ok(p) ==> pair_decodes_to(*val, p),
        res matches Err(e) ==> e@ == pair_decode_error::<K, V>(*val),
{
    match val {
        Record::Tuple(kv) => {
            if kv.len() != 2 {
                return Err(wrong_record_error("a 2-tuple", val));
            }
            let k = match K::from_record(&kv[0]) {
                Ok(k) => k,
                Err(e) => return Err(e),
            };
            let v = match V::from_record(&kv[1]) {
                Ok(v) => v,
                Err(e) => return Err(e),
            };
            Ok((k, v))
        },
        _ => Err(wrong_record_error("a 2-tuple", val)),
    }
}

impl<K: FromRecord + Ord, V: FromRecord> FromRecord for std_Map<K, V> {
    /// An array of pair records, each of which decodes.
    open spec fn decodes(r: Record) -> bool {
        r matches Record::Array(_, args) && all_pairs_decode::<K, V>(args@)
    }

    /// The map that the pairs build, in order: a later pair for a key
    /// replaces an earlier one.
    open spec fn decodes_to(r: Record, v: std_Map<K, V>) -> bool {
        r matches Record::Array(_, args) && (lawful_order::<K>() ==> exists|ps: Seq<(K, V)>|
            {
                &&& ps.len() == args@.len()
                &&& forall|i: int| 0 <= i < ps.len() ==> #[trigger] pair_decodes_to(args@[i], ps[i])
                &&& v@ == map_of_pairs(ps)
            })
    }

    /// The error of the first entry that does not decode.
    open spec fn decode_error(r: Record) -> Seq<char> {
        match r {
            Record::Array(_, args) => all_pairs_decode_error::<K, V>(args@),
            _ => wrong_record_message("an array"@, r),
        }
    }

    fn from_record(val: &Record) -> (res: Result<std_Map<K, V>, String>) {
        match val {
            Record::Array(_, args) => {
                let mut m: BTreeMap<K, V> = BTreeMap::new();
                let ghost mut ps: Seq<(K, V)> = Seq::empty();
                let mut i: usize = 0;
                while i < args.len()
                    invariant
                        Self::decodes(*val) == all_pairs_decode::<K, V>(args@),
                        Self::decode_error(*val) == all_pairs_decode_error::<K, V>(args@),
                        i <= args@.len(),
                        ps.len() == i,
                        forall|j: int| 0 <= j < i ==> #[trigger] pair_decodes::<K, V>(args@[j]),
                        forall|j: int| 0 <= j < i ==> #[trigger] pair_decodes_to(args@[j], ps[j]),
                        lawful_order::<K>() ==> m@ == map_of_pairs(ps),
                    decreases args@.len() - i,
                {
                    match pair_from_record::<K, V>(&args[i]) {
                        Ok(p) => {
                            let (k, v) = p;
                            m.insert(k, v);
                            proof {
                                let ps2 = ps.push((k, v));
                                assert(ps2.drop_last() =~= ps);
                                ps = ps2;
                            }
                        },
                        Err(e) => {
                            assert(!all_pairs_decode::<K, V>(args@));
                            proof {
                                lemma_all_pairs_decode_error::<K, V>(args@, i as int);
                            }
                            return Err(e);
                        },
                    }
                    i = i + 1;
                }
                assert(Self::decodes_to(*val, std_Map { x: m }));
                Ok(std_Map { x: m })
            },
            _ => Err(wrong_record_error("an array", val)),
        }
    }
}

impl<A: FromRecord + Default> FromRecord for std_Option<A> {
    open spec fn decodes(r: Record) -> bool {
        match r {
            Record::PosStruct(c, args) => (c@ == "std.Some"@ && args@.len() == 1 && A::decodes(
                args@[0],
            )) || (c@ == "std.None"@ && args@.len() == 0),
            Record::NamedStruct(c, args) => (c@ == "std.Some"@ && field_decodes::<A>(
                args@,
                "x"@,
            )) || c@ == "std.None"@,
            _ => false,
        }
    }

    open spec fn decodes_to(r: Record, v: std_Option<A>) -> bool {
        match r {
            Record::PosStruct(c, args) => if c@ == "std.Some"@ && args@.len() == 1 {
                v matches std_Option::std_Some { x } && A::decodes_to(args@[0], x)
            } else {
                c@ == "std.None"@ && args@.len() == 0 && v is std_None
            },
            Record::NamedStruct(c, args) => if c@ == "std.Some"@ {
                v matches std_Option::std_Some { x } && field_decodes_to(args@, "x"@, x)
            } else {
                c@ == "std.None"@ && v is std_None
            },
            _ => false,
        }
    }

    /// The error of the payload of `std.Some`, or the message for an
    /// unknown constructor or a record that is not a struct.
    open spec fn decode_error(r: Record) -> Seq<char> {
        match r {
            Record::PosStruct(c, args) => if c@ == "std.Some"@ && args@.len() == 1 {
                A::decode_error(args@[0])
            } else {
                unknown_constructor_message(c@, "std_Option"@, r)
            },
            Record::NamedStruct(c, args) => if c@ == "std.Some"@ {
                field_error::<A>(args@, "x"@)
            } else {
                unknown_constructor_message(c@, "std_Option"@, r)
            },
            _ => not_a_struct_message(r),
        }
    }

    fn from_record(val: &Record) -> (res: Result<std_Option<A>, String>) {
        proof {
            reveal_strlit("std.Some");
            reveal_strlit("std.None");
            assert("std.Some"@[4] != "std.None"@[4]);
        }
        match val {
            Record::PosStruct(constr, args) => {
                if str_eq(constr.as_str(), "std.Some") && args.len() == 1 {
                    match A::from_record(&args[0]) {
                        Ok(x) => Ok(std_Option::std_Some { x }),
                        Err(e) => Err(e),
                    }
                } else if str_eq(constr.as_str(), "std.None") && args.len() == 0 {
                    Ok(std_Option::std_None)
                } else {
                    Err(unknown_constructor_error(constr.as_str(), "std_Option", val))
                }
            },
            Record::NamedStruct(constr, args) => {
                if str_eq(constr.as_str(), "std.Some") {
                    match arg_extract::<A>(args, "x") {
                        Ok(x) => Ok(std_Option::std_Some { x }),
                        Err(e) => Err(e),
                    }
                } else if str_eq(constr.as_str(), "std.None") {
                    Ok(std_Option::std_None)
                } else {
                    Err(unknown_constructor_error(constr.as_str(), "std_Option", val))
                }
            },
            _ => Err(not_a_struct_error(val)),
        }
    }
}

impl<A: FromRecord + Default, B: FromRecord + Default> FromRecord for std_Either<A, B> {
    open spec fn decodes(r: Record) -> bool {
        match r {
            Record::PosStruct(c, args) => (c@ == "std.Left"@ && args@.len() == 1 && A::decodes(
                args@[0],
            )) || (c@ == "std.Right"@ && args@.len() == 1 && B::decodes(args@[0])),
            Record::NamedStruct(c, args) => (c@ == "std.Left"@ && field_decodes::<A>(
                args@,
                "l"@,
            )) || (c@ == "std.Right"@ && field_decodes::<B>(args@, "r"@)),
            _ => false,
        }
    }

    open spec fn decodes_to(r: Record, v: std_Either<A, B>) -> bool {
        match r {
            Record::PosStruct(c, args) => if c@ == "std.Left"@ && args@.len() == 1 {
                v matches std_Either::std_Left { l } && A::decodes_to(args@[0], l)
            } else {
                &&& c@ == "std.Right"@
                &&& args@.len() == 1
                &&& v matches std_Either::std_Right { r } && B::decodes_to(args@[0], r)
            },
            Record::NamedStruct(c, args) => if c@ == "std.Left"@ {
                v matches std_Either::std_Left { l } && field_decodes_to(args@, "l"@, l)
            } else {
                &&& c@ == "std.Right"@
                &&& v matches std_Either::std_Right { r } && field_decodes_to(args@, "r"@, r)
            },
            _ => false,
        }
    }

    /// The error of the payload, or the message for an unknown constructor
    /// or a record that is not a struct.
    open spec fn decode_error(r: Record) -> Seq<char> {
        match r {
            Record::PosStruct(c, args) => if c@ == "std.Left"@ && args@.len() == 1 {
                A::decode_error(args@[0])
            } else if c@ == "std.Right"@ && args@.len() == 1 {
                B::decode_error(args@[0])
            } else {
                unknown_constructor_message(c@, "std_Either"@, r)
            },
            Record::NamedStruct(c, args) => if c@ == "std.Left"@ {
                field_error::<A>(args@, "l"@)
            } else if c@ == "std.Right"@ {
                field_error::<B>(args@, "r"@)
            } else {
                unknown_constructor_message(c@, "std_Either"@, r)
            },
            _ => not_a_struct_message(r),
        }
    }

    fn from_record(val: &Record) -> (res: Result<std_Either<A, B>, String>) {
        proof {
            reveal_strlit("std.Left");
            reveal_strlit("std.Right");
            assert("std.Left"@.len() != "std.Right"@.len());
        }
        match val {
            Record::PosStruct(constr, args) => {
                if str_eq(constr.as_str(), "std.Left") && args.len() == 1 {
                    match A::from_record(&args[0]) {
                        Ok(l) => Ok(std_Either::std_Left { l }),
                        Err(e) => Err(e),
                    }
                } else if str_eq(constr.as_str(), "std.Right") && args.len() == 1 {
                    match B::from_record(&args[0]) {
                        Ok(r) => Ok(std_Either::std_Right { r }),
                        Err(e) => Err(e),
                    }
                } else {
                    Err(unknown_constructor_error(constr.as_str(), "std_Either", val))
                }
            },
            Record::NamedStruct(constr, args) => {
                if str_eq(constr.as_str(), "std.Left") {
                    match arg_extract::<A>(args, "l") {
                        Ok(l) => Ok(std_Either::std_Left { l }),
                        Err(e) => Err(e),
                    }
                } else if str_eq(constr.as_str(), "std.Right") {
                    match arg_extract::<B>(args, "r") {
                        Ok(r) => Ok(std_Either::std_Right { r }),
                        Err(e) => Err(e),
                    }
                } else {
                    Err(unknown_constructor_error(constr.as_str(), "std_Either", val))
                }
            },
            _ => Err(not_a_struct_error(val)),
        }
    }
}

} // verus!
