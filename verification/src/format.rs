//! The text forms of values: what the program prints for each of its types,
//! in the forms that Rust's `Display` and `Debug` give them.
use vstd::prelude::*;
use crate::option::{std_Option, std_Either};
use crate::vec::std_Vec;
use crate::set::{std_Set, sorted_refs};
use crate::map::{std_Map, sorted_entries};
use crate::order::{lawful_order, sorted_seq};
use crate::strings::{seq_join, string_views, join_strings};
use crate::types::{
    Value, tuple0, redistributionspan_DdlogBinding, redistributionspan_DdlogDependency,
    redistributionspan_DdlogNode, redistributionspan_Span,
};

verus! {

broadcast use vstd::std_specs::btree::group_btree_axioms;

/// Types with a text form for display.
pub trait DisplayText {
    /// Whether the text form is determined by the values alone (for ordered
    /// collections: whether the order of their elements is lawful).
    spec fn display_defined() -> bool;

    /// The text form for display.
    spec fn display_text(&self) -> Seq<char>;

    /// The text form for display, as a string.
    fn display_string(&self) -> (res: String)
        requires
            Self::display_defined(),
        ensures
            res@ == self.display_text(),
    ;
}

/// Types with a text form for debugging.
pub trait DebugText {
    /// Whether the text form is determined by the values alone (for ordered
    /// collections: whether the order of their elements is lawful).
    spec fn debug_defined() -> bool;

    /// The text form for debugging.
    spec fn debug_text(&self) -> Seq<char>;

    /// The text form for debugging, as a string.
    fn debug_string(&self) -> (res: String)
        requires
            Self::debug_defined(),
        ensures
            res@ == self.debug_text(),
    ;
}

/// The character of the decimal digit `d`.
pub open spec fn digit_char(d: nat) -> char {
    ('0' as nat + d) as char
}

/// The character of the hexadecimal digit `d`, in lowercase.
pub open spec fn hex_digit_char(d: nat) -> char {
    if d < 10 {
        ('0' as nat + d) as char
    } else {
        ('a' as nat + (d - 10)) as char
    }
}

/// The decimal digits of `n`, without leading zeros.
pub open spec fn decimal_text(n: nat) -> Seq<char>
    decreases n,
{
    if n < 10 {
        seq![digit_char(n)]
    } else {
        decimal_text(n / 10) + seq![digit_char(n % 10)]
    }
}

/// The lowercase hexadecimal digits of `n`, without leading zeros.
pub open spec fn hex_text(n: nat) -> Seq<char>
    decreases n,
{
    if n < 16 {
        seq![hex_digit_char(n)]
    } else {
        hex_text(n / 16) + seq![hex_digit_char(n % 16)]
    }
}

/// `<u64 as ToString>::to_string`: the decimal digits of `x`.
#[verifier::external_body]
fn u64_decimal(x: u64) -> (res: String)
    ensures
        res@ == decimal_text(x as nat),
{
    x.to_string()
}

/// `format!("{:x}")` of a `u64`: the lowercase hexadecimal digits of `x`.
#[verifier::external_body]
fn u64_hex(x: u64) -> (res: String)
    ensures
        res@ == hex_text(x as nat),
{
    format!("{:x}", x)
}

/// The text of the integer `i` in decimal, with a leading `-` when it is
/// negative.
pub open spec fn int_text(i: int) -> Seq<char> {
    if i < 0 {
        "-"@ + decimal_text((-i) as nat)
    } else {
        decimal_text(i as nat)
    }
}

/// `<i128 as ToString>::to_string`: the decimal digits of `x`, after a `-`
/// when it is negative.
#[verifier::external_body]
pub(crate) fn i128_decimal(x: i128) -> (res: String)
    ensures
        res@ == int_text(x as int),
{
    x.to_string()
}

/// `<str as Debug>::fmt`: the characters of its argument between double
/// quotes, with quotes, backslashes, control characters and the characters
/// that Unicode does not print replaced by escapes.
pub uninterp spec fn debug_quoted(s: Seq<char>) -> Seq<char>;

/// `<str as Debug>::fmt`: `s` quoted and escaped as `Debug` writes it.
#[verifier::external_body]
pub(crate) fn str_debug(s: &str) -> (res: String)
    ensures
        res@ == debug_quoted(s@),
{
    format!("{:?}", s)
}

/// The string `a`, then `b`, then `c`.
fn concat3(a: &str, b: &str, c: &str) -> (res: String)
    ensures
        res@ == a@ + b@ + c@,
{
    let mut s = String::from_str(a);
    s.append(b);
    s.append(c);
    s
}

/// The lowercase hexadecimal form of `x`.
pub fn std_hex(x: &u64) -> (res: String)
    ensures
        res@ == hex_text(*x as nat),
{
    u64_hex(*x)
}

/// The display form of `x`.
pub fn std___builtin_2string<T: DisplayText>(x: &T) -> (res: String)
    requires
        T::display_defined(),
    ensures
        res@ == x.display_text(),
{
    x.display_string()
}

impl DisplayText for u16 {
    open spec fn display_defined() -> bool {
        true
    }

    open spec fn display_text(&self) -> Seq<char> {
        decimal_text(*self as nat)
    }

    fn display_string(&self) -> (res: String) {
        u64_decimal(*self as u64)
    }
}

impl DebugText for u16 {
    open spec fn debug_defined() -> bool {
        true
    }

    open spec fn debug_text(&self) -> Seq<char> {
        decimal_text(*self as nat)
    }

    fn debug_string(&self) -> (res: String) {
        u64_decimal(*self as u64)
    }
}

impl DisplayText for u32 {
    open spec fn display_defined() -> bool {
        true
    }

    open spec fn display_text(&self) -> Seq<char> {
        decimal_text(*self as nat)
    }

    fn display_string(&self) -> (res: String) {
        u64_decimal(*self as u64)
    }
}

impl DebugText for u32 {
    open spec fn debug_defined() -> bool {
        true
    }

    open spec fn debug_text(&self) -> Seq<char> {
        decimal_text(*self as nat)
    }

    fn debug_string(&self) -> (res: String) {
        u64_decimal(*self as u64)
    }
}

impl DisplayText for u64 {
    open spec fn display_defined() -> bool {
        true
    }

    open spec fn display_text(&self) -> Seq<char> {
        decimal_text(*self as nat)
    }

    fn display_string(&self) -> (res: String) {
        u64_decimal(*self)
    }
}

impl DebugText for u64 {
    open spec fn debug_defined() -> bool {
        true
    }

    open spec fn debug_text(&self) -> Seq<char> {
        decimal_text(*self as nat)
    }

    fn debug_string(&self) -> (res: String) {
        u64_decimal(*self)
    }
}

impl DisplayText for bool {
    open spec fn display_defined() -> bool {
        true
    }

    open spec fn display_text(&self) -> Seq<char> {
        if *self {
            "true"@
        } else {
            "false"@
        }
    }

    fn display_string(&self) -> (res: String) {
        if *self {
            String::from_str("true")
        } else {
            String::from_str("false")
        }
    }
}

impl DebugText for bool {
    open spec fn debug_defined() -> bool {
        true
    }

    open spec fn debug_text(&self) -> Seq<char> {
        if *self {
            "true"@
        } else {
            "false"@
        }
    }

    fn debug_string(&self) -> (res: String) {
        if *self {
            String::from_str("true")
        } else {
            String::from_str("false")
        }
    }
}

impl DisplayText for String {
    open spec fn display_defined() -> bool {
        true
    }

    open spec fn display_text(&self) -> Seq<char> {
        self@
    }

    fn display_string(&self) -> (res: String) {
        String::from_str(self.as_str())
    }
}

impl DebugText for String {
    open spec fn debug_defined() -> bool {
        true
    }

    /// As `Debug` writes a string: quoted and escaped.
    open spec fn debug_text(&self) -> Seq<char> {
        debug_quoted(self@)
    }

    fn debug_string(&self) -> (res: String) {
        str_debug(self.as_str())
    }
}

impl DebugText for tuple0 {
    open spec fn debug_defined() -> bool {
        true
    }

    open spec fn debug_text(&self) -> Seq<char> {
        "tuple0"@
    }

    fn debug_string(&self) -> (res: String) {
        String::from_str("tuple0")
    }
}

/// The display forms of the values of `s`.
pub open spec fn display_texts<T: DisplayText>(s: Seq<T>) -> Seq<Seq<char>> {
    s.map_values(|e: T| e.display_text())
}

/// The debug forms of the values of `s`.
pub open spec fn debug_texts<T: DebugText>(s: Seq<T>) -> Seq<Seq<char>> {
    s.map_values(|e: T| e.debug_text())
}

/// The display forms of the values that `v` refers to.
fn display_parts<T: DisplayText>(v: &Vec<&T>) -> (res: Vec<String>)
    requires
        T::display_defined(),
    ensures
        string_views(res@) == display_texts(v@.unref()),
{
    let mut res: Vec<String> = Vec::new();
    let mut i: usize = 0;
    while i < v.len()
        invariant
            T::display_defined(),
            i <= v@.len(),
            string_views(res@) == display_texts(v@.unref().take(i as int)),
        decreases v@.len() - i,
    {
        let p = v[i].display_string();
        let ghost before = string_views(res@);
        res.push(p);
        assert(string_views(res@) =~= before.push(p@));
        assert(display_texts(v@.unref().take(i + 1)) =~= display_texts(v@.unref().take(i as int)).push(
            v@.unref()[i as int].display_text(),
        ));
        i = i + 1;
    }
    assert(v@.unref().take(v@.len() as int) =~= v@.unref());
    res
}

/// The debug forms of the values that `v` refers to.
fn debug_parts<T: DebugText>(v: &Vec<&T>) -> (res: Vec<String>)
    requires
        T::debug_defined(),
    ensures
        string_views(res@) == debug_texts(v@.unref()),
{
    let mut res: Vec<String> = Vec::new();
    let mut i: usize = 0;
    while i < v.len()
        invariant
            T::debug_defined(),
            i <= v@.len(),
            string_views(res@) == debug_texts(v@.unref().take(i as int)),
        decreases v@.len() - i,
    {
        let p = v[i].debug_string();
        let ghost before = string_views(res@);
        res.push(p);
        assert(string_views(res@) =~= before.push(p@));
        assert(debug_texts(v@.unref().take(i + 1)) =~= debug_texts(v@.unref().take(i as int)).push(
            v@.unref()[i as int].debug_text(),
        ));
        i = i + 1;
    }
    assert(v@.unref().take(v@.len() as int) =~= v@.unref());
    res
}

/// References to the values of `v`, in order.
fn refs_of<T>(v: &Vec<T>) -> (res: Vec<&T>)
    ensures
        res@.unref() == v@,
{
    let mut res: Vec<&T> = Vec::new();
    let mut i: usize = 0;
    while i < v.len()
        invariant
            i <= v@.len(),
            res@.len() == i,
            res@.unref() == v@.take(i as int),
        decreases v@.len() - i,
    {
        let ghost before = res@;
        let r: &T = &v[i];
        assert(*r == v@[i as int]);
        res.push(r);
        assert(res@[i as int] == r);
        assert forall|k: int| 0 <= k < i + 1 implies res@.unref()[k] == v@.take(i + 1)[k] by {
            if k < i {
                assert(before.unref()[k] == v@.take(i as int)[k]);
            }
        }
        assert(res@.unref() =~= v@.take(i + 1));
        i = i + 1;
    }
    assert(v@.take(v@.len() as int) =~= v@);
    res
}

impl<T: DisplayText> DisplayText for std_Vec<T> {
    open spec fn display_defined() -> bool {
        T::display_defined()
    }

    /// The display forms of the elements, separated by commas, in brackets.
    open spec fn display_text(&self) -> Seq<char> {
        "["@ + seq_join(display_texts(self@), ","@) + "]"@
    }

    fn display_string(&self) -> (res: String) {
        let refs = refs_of(&self.x);
        let parts = display_parts(&refs);
        let body = join_strings(&parts, ",");
        concat3("[", body.as_str(), "]")
    }
}

impl<T: DebugText> DebugText for std_Vec<T> {
    open spec fn debug_defined() -> bool {
        T::debug_defined()
    }

    /// As `derive(Debug)` gives it: `std_Vec { x: [..] }`.
    open spec fn debug_text(&self) -> Seq<char> {
        "std_Vec { x: ["@ + seq_join(debug_texts(self@), ", "@) + "] }"@
    }

    fn debug_string(&self) -> (res: String) {
        let refs = refs_of(&self.x);
        let parts = debug_parts(&refs);
        let body = join_strings(&parts, ", ");
        concat3("std_Vec { x: [", body.as_str(), "] }")
    }
}

impl<T: DisplayText + Ord> DisplayText for std_Set<T> {
    open spec fn display_defined() -> bool {
        T::display_defined() && lawful_order::<T>()
    }

    /// The display forms of the elements in increasing order, separated by
    /// commas, in brackets.
    open spec fn display_text(&self) -> Seq<char> {
        "["@ + seq_join(display_texts(sorted_seq(self@)), ","@) + "]"@
    }

    fn display_string(&self) -> (res: String) {
        let refs = sorted_refs(self);
        let parts = display_parts(&refs);
        let body = join_strings(&parts, ",");
        concat3("[", body.as_str(), "]")
    }
}

impl<T: DebugText + Ord> DebugText for std_Set<T> {
    open spec fn debug_defined() -> bool {
        T::debug_defined() && lawful_order::<T>()
    }

    /// As `derive(Debug)` gives it: `std_Set { x: {..} }`, the elements in
    /// increasing order.
    open spec fn debug_text(&self) -> Seq<char> {
        "std_Set { x: {"@ + seq_join(debug_texts(sorted_seq(self@)), ", "@) + "} }"@
    }

    fn debug_string(&self) -> (res: String) {
        let refs = sorted_refs(self);
        let parts = debug_parts(&refs);
        let body = join_strings(&parts, ", ");
        concat3("std_Set { x: {", body.as_str(), "} }")
    }
}

/// The display forms `(k,v)` of the entries of `m`, in increasing order of keys.
pub open spec fn entry_display_texts<K: DisplayText, V: DisplayText>(m: Map<K, V>, keys: Seq<
    K,
>) -> Seq<Seq<char>> {
    keys.map_values(|k: K| "("@ + k.display_text() + ","@ + m[k].display_text() + ")"@)
}

/// The debug forms `k: v` of the entries of `m`, in increasing order of keys.
pub open spec fn entry_debug_texts<K: DebugText, V: DebugText>(m: Map<K, V>, keys: Seq<K>) -> Seq<
    Seq<char>,
> {
    keys.map_values(|k: K| k.debug_text() + ": "@ + m[k].debug_text())
}

impl<K: DisplayText + Ord, V: DisplayText> DisplayText for std_Map<K, V> {
    open spec fn display_defined() -> bool {
        K::display_defined() && V::display_defined() && lawful_order::<K>()
    }

    /// The entries `(k,v)` in increasing order of keys, separated by commas,
    /// in brackets.
    open spec fn display_text(&self) -> Seq<char> {
        "["@ + seq_join(entry_display_texts(self@, sorted_seq(self@.dom())), ","@) + "]"@
    }

    fn display_string(&self) -> (res: String) {
        let entries = sorted_entries(self);
        let ghost keys = sorted_seq(self@.dom());
        let mut parts: Vec<String> = Vec::new();
        let mut i: usize = 0;
        while i < entries.len()
            invariant
                Self::display_defined(),
                keys == sorted_seq(self@.dom()),
                i <= entries@.len(),
                entries@.len() == keys.len(),
                forall|j: int|
                    0 <= j < entries@.len() ==> *(#[trigger] entries@[j]).0 == keys[j]
                        && *entries@[j].1 == self@[*entries@[j].0],
                string_views(parts@) == entry_display_texts(self@, keys.take(i as int)),
            decreases entries@.len() - i,
        {
            let (k, v) = entries[i];
            let ks = k.display_string();
            let vs = v.display_string();
            let mut p = concat3("(", ks.as_str(), ",");
            p.append(vs.as_str());
            p.append(")");
            let ghost before = string_views(parts@);
            parts.push(p);
            assert(string_views(parts@) =~= before.push(p@));
            assert(entry_display_texts(self@, keys.take(i + 1)) =~= entry_display_texts(
                self@,
                keys.take(i as int),
            ).push(p@));
            i = i + 1;
        }
        assert(keys.take(keys.len() as int) =~= keys);
        let body = join_strings(&parts, ",");
        concat3("[", body.as_str(), "]")
    }
}

impl<K: DebugText + Ord, V: DebugText> DebugText for std_Map<K, V> {
    open spec fn debug_defined() -> bool {
        K::debug_defined() && V::debug_defined() && lawful_order::<K>()
    }

    /// As `derive(Debug)` gives it: `std_Map { x: {k: v, ..} }`, the entries
    /// in increasing order of keys.
    open spec fn debug_text(&self) -> Seq<char> {
        "std_Map { x: {"@ + seq_join(entry_debug_texts(self@, sorted_seq(self@.dom())), ", "@)
            + "} }"@
    }

    fn debug_string(&self) -> (res: String) {
        let entries = sorted_entries(self);
        let ghost keys = sorted_seq(self@.dom());
        let mut parts: Vec<String> = Vec::new();
        let mut i: usize = 0;
        while i < entries.len()
            invariant
                Self::debug_defined(),
                keys == sorted_seq(self@.dom()),
                i <= entries@.len(),
                entries@.len() == keys.len(),
                forall|j: int|
                    0 <= j < entries@.len() ==> *(#[trigger] entries@[j]).0 == keys[j]
                        && *entries@[j].1 == self@[*entries@[j].0],
                string_views(parts@) == entry_debug_texts(self@, keys.take(i as int)),
            decreases entries@.len() - i,
        {
            let (k, v) = entries[i];
            let ks = k.debug_string();
            let vs = v.debug_string();
            let p = concat3(ks.as_str(), ": ", vs.as_str());
            let ghost before = string_views(parts@);
            parts.push(p);
            assert(string_views(parts@) =~= before.push(p@));
            assert(entry_debug_texts(self@, keys.take(i + 1)) =~= entry_debug_texts(
                self@,
                keys.take(i as int),
            ).push(p@));
            i = i + 1;
        }
        assert(keys.take(keys.len() as int) =~= keys);
        let body = join_strings(&parts, ", ");
        concat3("std_Map { x: {", body.as_str(), "} }")
    }
}

impl<A: DebugText> DisplayText for std_Option<A> {
    open spec fn display_defined() -> bool {
        A::debug_defined()
    }

    /// `std.Some{x}` with the debug form of `x`, or `std.None{}`.
    open spec fn display_text(&self) -> Seq<char> {
        match self {
            std_Option::std_Some { x } => "std.Some{"@ + x.debug_text() + "}"@,
            std_Option::std_None => "std.None{}"@,
        }
    }

    fn display_string(&self) -> (res: String) {
        match self {
            std_Option::std_Some { x } => {
                let t = x.debug_string();
                concat3("std.Some{", t.as_str(), "}")
            },
            std_Option::std_None => String::from_str("std.None{}"),
        }
    }
}

impl<A: DebugText> DebugText for std_Option<A> {
    open spec fn debug_defined() -> bool {
        A::debug_defined()
    }

    /// The same as the display form.
    open spec fn debug_text(&self) -> Seq<char> {
        match self {
            std_Option::std_Some { x } => "std.Some{"@ + x.debug_text() + "}"@,
            std_Option::std_None => "std.None{}"@,
        }
    }

    fn debug_string(&self) -> (res: String) {
        match self {
            std_Option::std_Some { x } => {
                let t = x.debug_string();
                concat3("std.Some{", t.as_str(), "}")
            },
            std_Option::std_None => String::from_str("std.None{}"),
        }
    }
}

impl<A: DebugText, B: DebugText> DisplayText for std_Either<A, B> {
    open spec fn display_defined() -> bool {
        A::debug_defined() && B::debug_defined()
    }

    /// `std.Left{l}` or `std.Right{r}`, with the debug form of the value.
    open spec fn display_text(&self) -> Seq<char> {
        match self {
            std_Either::std_Left { l } => "std.Left{"@ + l.debug_text() + "}"@,
            std_Either::std_Right { r } => "std.Right{"@ + r.debug_text() + "}"@,
        }
    }

    fn display_string(&self) -> (res: String) {
        match self {
            std_Either::std_Left { l } => {
                let t = l.debug_string();
                concat3("std.Left{", t.as_str(), "}")
            },
            std_Either::std_Right { r } => {
                let t = r.debug_string();
                concat3("std.Right{", t.as_str(), "}")
            },
        }
    }
}

impl<A: DebugText, B: DebugText> DebugText for std_Either<A, B> {
    open spec fn debug_defined() -> bool {
        A::debug_defined() && B::debug_defined()
    }

    /// The same as the display form.
    open spec fn debug_text(&self) -> Seq<char> {
        match self {
            std_Either::std_Left { l } => "std.Left{"@ + l.debug_text() + "}"@,
            std_Either::std_Right { r } => "std.Right{"@ + r.debug_text() + "}"@,
        }
    }

    fn debug_string(&self) -> (res: String) {
        match self {
            std_Either::std_Left { l } => {
                let t = l.debug_string();
                concat3("std.Left{", t.as_str(), "}")
            },
            std_Either::std_Right { r } => {
                let t = r.debug_string();
                concat3("std.Right{", t.as_str(), "}")
            },
        }
    }
}

impl DisplayText for redistributionspan_DdlogBinding {
    open spec fn display_defined() -> bool {
        true
    }

    /// `redistributionspan.DdlogBinding{..}` with the debug forms of the fields, separated by commas.
    open spec fn display_text(&self) -> Seq<char> {
        "redistributionspan.DdlogBinding{"@ + self.tn.debug_text() + ","@ + self.entity.debug_text() + "}"@
    }

    fn display_string(&self) -> (res: String) {
        let mut s = String::from_str("redistributionspan.DdlogBinding{");
        let t0 = self.tn.debug_string();
        s.append(t0.as_str());
        s.append(",");
        let t1 = self.entity.debug_string();
        s.append(t1.as_str());
        s.append("}");
        s
    }
}

impl DebugText for redistributionspan_DdlogBinding {
    open spec fn debug_defined() -> bool {
        true
    }

    /// `redistributionspan.DdlogBinding{..}` with the debug forms of the fields, separated by commas.
    open spec fn debug_text(&self) -> Seq<char> {
        "redistributionspan.DdlogBinding{"@ + self.tn.debug_text() + ","@ + self.entity.debug_text() + "}"@
    }

    fn debug_string(&self) -> (res: String) {
        let mut s = String::from_str("redistributionspan.DdlogBinding{");
        let t0 = self.tn.debug_string();
        s.append(t0.as_str());
        s.append(",");
        let t1 = self.entity.debug_string();
        s.append(t1.as_str());
        s.append("}");
        s
    }
}

impl DisplayText for redistributionspan_DdlogDependency {
    open spec fn display_defined() -> bool {
        true
    }

    /// `redistributionspan.DdlogDependency{..}` with the debug forms of the fields, separated by commas.
    open spec fn display_text(&self) -> Seq<char> {
        "redistributionspan.DdlogDependency{"@ + self.parent.debug_text() + ","@ + self.child.debug_text() + "}"@
    }

    fn display_string(&self) -> (res: String) {
        let mut s = String::from_str("redistributionspan.DdlogDependency{");
        let t0 = self.parent.debug_string();
        s.append(t0.as_str());
        s.append(",");
        let t1 = self.child.debug_string();
        s.append(t1.as_str());
        s.append("}");
        s
    }
}

impl DebugText for redistributionspan_DdlogDependency {
    open spec fn debug_defined() -> bool {
        true
    }

    /// `redistributionspan.DdlogDependency{..}` with the debug forms of the fields, separated by commas.
    open spec fn debug_text(&self) -> Seq<char> {
        "redistributionspan.DdlogDependency{"@ + self.parent.debug_text() + ","@ + self.child.debug_text() + "}"@
    }

    fn debug_string(&self) -> (res: String) {
        let mut s = String::from_str("redistributionspan.DdlogDependency{");
        let t0 = self.parent.debug_string();
        s.append(t0.as_str());
        s.append(",");
        let t1 = self.child.debug_string();
        s.append(t1.as_str());
        s.append("}");
        s
    }
}

impl DisplayText for redistributionspan_DdlogNode {
    open spec fn display_defined() -> bool {
        true
    }

    /// `redistributionspan.DdlogNode{..}` with the debug forms of the fields, separated by commas.
    open spec fn display_text(&self) -> Seq<char> {
        "redistributionspan.DdlogNode{"@ + self.id.debug_text() + "}"@
    }

    fn display_string(&self) -> (res: String) {
        let mut s = String::from_str("redistributionspan.DdlogNode{");
        let t0 = self.id.debug_string();
        s.append(t0.as_str());
        s.append("}");
        s
    }
}

impl DebugText for redistributionspan_DdlogNode {
    open spec fn debug_defined() -> bool {
        true
    }

    /// `redistributionspan.DdlogNode{..}` with the debug forms of the fields, separated by commas.
    open spec fn debug_text(&self) -> Seq<char> {
        "redistributionspan.DdlogNode{"@ + self.id.debug_text() + "}"@
    }

    fn debug_string(&self) -> (res: String) {
        let mut s = String::from_str("redistributionspan.DdlogNode{");
        let t0 = self.id.debug_string();
        s.append(t0.as_str());
        s.append("}");
        s
    }
}

impl DisplayText for redistributionspan_Span {
    open spec fn display_defined() -> bool {
        true
    }

    /// `redistributionspan.Span{..}` with the debug forms of the fields, separated by commas.
    open spec fn display_text(&self) -> Seq<char> {
        "redistributionspan.Span{"@ + self.entity.debug_text() + ","@ + self.tns.debug_text() + "}"@
    }

    fn display_string(&self) -> (res: String) {
        let mut s = String::from_str("redistributionspan.Span{");
        let t0 = self.entity.debug_string();
        s.append(t0.as_str());
        s.append(",");
        let t1 = self.tns.debug_string();
        s.append(t1.as_str());
        s.append("}");
        s
    }
}

impl DebugText for redistributionspan_Span {
    open spec fn debug_defined() -> bool {
        true
    }

    /// `redistributionspan.Span{..}` with the debug forms of the fields, separated by commas.
    open spec fn debug_text(&self) -> Seq<char> {
        "redistributionspan.Span{"@ + self.entity.debug_text() + ","@ + self.tns.debug_text() + "}"@
    }

    fn debug_string(&self) -> (res: String) {
        let mut s = String::from_str("redistributionspan.Span{");
        let t0 = self.entity.debug_string();
        s.append(t0.as_str());
        s.append(",");
        let t1 = self.tns.debug_string();
        s.append(t1.as_str());
        s.append("}");
        s
    }
}

/// The debug form of a pair: `(a, b)`.
pub open spec fn pair_text(a: Seq<char>, b: Seq<char>) -> Seq<char> {
    "("@ + a + ", "@ + b + ")"@
}

/// The string `(a, b)`.
fn pair_string(a: &str, b: &str) -> (res: String)
    ensures
        res@ == pair_text(a@, b@),
{
    let mut s = String::from_str("(");
    s.append(a);
    s.append(", ");
    s.append(b);
    s.append(")");
    s
}

impl DisplayText for Value {
    open spec fn display_defined() -> bool {
        true
    }

    /// The debug form of what the value holds.
    open spec fn display_text(&self) -> Seq<char> {
        match self {
            Value::bit32(v) => v.debug_text(),
            Value::tuple0__(_) => "()"@,
            Value::tuple2__bit32_bit16(p) => pair_text(p.0.debug_text(), p.1.debug_text()),
            Value::tuple2__bit32_bit32(p) => pair_text(p.0.debug_text(), p.1.debug_text()),
            Value::tuple2__bit32_std_Set__bit16(p) => pair_text(
                p.0.debug_text(),
                p.1.debug_text(),
            ),
            Value::tuple3__bit32_std_Set__bit16_bit32(t) => "("@ + t.0.debug_text() + ", "@
                + t.1.debug_text() + ", "@ + t.2.debug_text() + ")"@,
            Value::tuple2__std_Set__bit16_bit32(p) => pair_text(
                p.0.debug_text(),
                p.1.debug_text(),
            ),
            Value::redistributionspan_DdlogBinding(b) => b.debug_text(),
            Value::redistributionspan_DdlogDependency(d) => d.debug_text(),
            Value::redistributionspan_DdlogNode(n) => n.debug_text(),
            Value::redistributionspan_Span(s) => s.debug_text(),
        }
    }

    fn display_string(&self) -> (res: String) {
        match self {
            Value::bit32(v) => v.debug_string(),
            Value::tuple0__(_) => String::from_str("()"),
            Value::tuple2__bit32_bit16(p) => {
                let a = p.0.debug_string();
                let b = p.1.debug_string();
                pair_string(a.as_str(), b.as_str())
            },
            Value::tuple2__bit32_bit32(p) => {
                let a = p.0.debug_string();
                let b = p.1.debug_string();
                pair_string(a.as_str(), b.as_str())
            },
            Value::tuple2__bit32_std_Set__bit16(p) => {
                let a = p.0.debug_string();
                let b = p.1.debug_string();
                pair_string(a.as_str(), b.as_str())
            },
            Value::tuple3__bit32_std_Set__bit16_bit32(t) => {
                let a = t.0.debug_string();
                let b = t.1.debug_string();
                let c = t.2.debug_string();
                let mut s = String::from_str("(");
                s.append(a.as_str());
                s.append(", ");
                s.append(b.as_str());
                s.append(", ");
                s.append(c.as_str());
                s.append(")");
                s
            },
            Value::tuple2__std_Set__bit16_bit32(p) => {
                let a = p.0.debug_string();
                let b = p.1.debug_string();
                pair_string(a.as_str(), b.as_str())
            },
            Value::redistributionspan_DdlogBinding(b) => b.debug_string(),
            Value::redistributionspan_DdlogDependency(d) => d.debug_string(),
            Value::redistributionspan_DdlogNode(n) => n.debug_string(),
            Value::redistributionspan_Span(s) => s.debug_string(),
        }
    }
}

} // verus!
