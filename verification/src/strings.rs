//! String functions of the Datalog standard library.
use vstd::prelude::*;
use crate::vec::std_Vec;
use crate::option::{std_Option, spec_option2std};
use vstd::string::StringSliceAdditionalSpecFns;

verus! {

broadcast use vstd::string::group_string_axioms;

/// The characters of `s`, in order.
pub fn chars_of(s: &str) -> (res: Vec<char>)
    ensures
        res@ == s@,
{
    let mut res: Vec<char> = Vec::new();
    let ghost g = s@;
    for c in it: s.chars()
        invariant
            it.seq() == g,
            res@ == g.take(it.index()),
    {
        res.push(c);
    }
    assert(res@ =~= g);
    res
}

/// `s1` followed by `s2`.
pub fn string_append_str(s1: String, s2: &str) -> (res: String)
    ensures
        res@ == s1@ + s2@,
{
    let mut s1 = s1;
    s1.append(s2);
    s1
}

/// `s1` followed by `s2`.
pub fn string_append(s1: String, s2: &String) -> (res: String)
    ensures
        res@ == s1@ + s2@,
{
    let mut s1 = s1;
    s1.append(s2.as_str());
    s1
}

/// The length of `s` in bytes of its UTF-8 encoding.
pub fn std_string_len(s: &String) -> (res: u64)
    ensures
        res == vstd::utf8::encode_utf8(s@).len() as usize,
{
    s.as_str().len() as u64
}

/// Whether `t` occurs in `s` at position `i`.
pub open spec fn occurs_at(s: Seq<char>, t: Seq<char>, i: int) -> bool {
    0 <= i && i + t.len() <= s.len() && s.subrange(i, i + t.len()) == t
}

/// Whether `t` occurs in `s`.
pub open spec fn occurs_in(s: Seq<char>, t: Seq<char>) -> bool {
    exists|i: int| occurs_at(s, t, i)
}

/// Whether `t` occurs in `s` at position `i`, checked character by character.
fn occurs_at_exec(s: &Vec<char>, t: &Vec<char>, i: usize) -> (res: bool)
    requires
        i + t@.len() <= s@.len(),
    ensures
        res == occurs_at(s@, t@, i as int),
{
    let sl = s.len();
    let mut j: usize = 0;
    while j < t.len()
        invariant
            sl == s@.len(),
            i + t@.len() <= s@.len(),
            j <= t@.len(),
            forall|k: int| 0 <= k < j ==> s@[i + k] == t@[k],
        decreases t@.len() - j,
    {
        if s[i + j] != t[j] {
            assert(s@.subrange(i as int, i + t@.len())[j as int] != t@[j as int]);
            return false;
        }
        j = j + 1;
    }
    assert(s@.subrange(i as int, i + t@.len()) =~= t@);
    true
}

/// The first position at or after `from` where `t` occurs in `s`, if any.
fn find_from(s: &Vec<char>, t: &Vec<char>, from: usize) -> (res: Option<usize>)
    requires
        from <= s@.len(),
    ensures
        match res {
            Some(i) => from <= i && occurs_at(s@, t@, i as int) && forall|j: int|
                from <= j < i ==> !occurs_at(s@, t@, j),
            None => forall|j: int| from <= j ==> !occurs_at(s@, t@, j),
        },
{
    if t.len() > s.len() {
        return None;
    }
    let last = s.len() - t.len();
    if from > last {
        return None;
    }
    let mut i: usize = from;
    loop
        invariant
            from <= i <= last,
            last + t@.len() == s@.len(),
            forall|j: int| from <= j < i ==> !occurs_at(s@, t@, j),
        decreases last - i,
    {
        if occurs_at_exec(s, t, i) {
            return Some(i);
        }
        if i == last {
            return None;
        }
        i = i + 1;
    }
}

/// Whether `s2` occurs in `s1`.
pub fn std_string_contains(s1: &String, s2: &String) -> (res: bool)
    ensures
        res == occurs_in(s1@, s2@),
{
    let a = chars_of(s1.as_str());
    let b = chars_of(s2.as_str());
    match find_from(&a, &b, 0) {
        Some(i) => {
            assert(occurs_at(s1@, s2@, i as int));
            true
        },
        None => false,
    }
}

/// The strings of `list` with `sep` between each two.
pub open spec fn seq_join(list: Seq<Seq<char>>, sep: Seq<char>) -> Seq<char>
    decreases list.len(),
{
    if list.len() == 0 {
        Seq::empty()
    } else if list.len() == 1 {
        list[0]
    } else {
        seq_join(list.drop_last(), sep) + sep + list.last()
    }
}

/// The views of a sequence of strings.
pub open spec fn string_views(s: Seq<String>) -> Seq<Seq<char>> {
    s.map_values(|x: String| x@)
}

/// The strings of `parts` with `sep` between each two.
pub fn join_strings(parts: &Vec<String>, sep: &str) -> (res: String)
    ensures
        res@ == seq_join(string_views(parts@), sep@),
{
    let ghost views = string_views(parts@);
    let mut res = String::new();
    let mut i: usize = 0;
    while i < parts.len()
        invariant
            i <= parts@.len(),
            views == string_views(parts@),
            res@ == seq_join(views.take(i as int), sep@),
        decreases parts@.len() - i,
    {
        if i != 0 {
            res.append(sep);
        }
        res.append(parts[i].as_str());
        assert(views.take(i + 1).drop_last() =~= views.take(i as int));
        i = i + 1;
    }
    assert(views.take(parts@.len() as int) =~= views);
    res
}

/// The strings of `strings` with `sep` between each two.
pub fn std_string_join(strings: &std_Vec<String>, sep: &String) -> (res: String)
    ensures
        res@ == seq_join(string_views(strings@), sep@),
{
    join_strings(&strings.x, sep.as_str())
}

/// The first position where `t` occurs in `s`, if any.
pub open spec fn first_occurrence(s: Seq<char>, t: Seq<char>) -> Option<int>
    decreases s.len(),
{
    if s.len() < t.len() {
        None
    } else if s.take(t.len() as int) == t {
        Some(0)
    } else if s.len() == 0 {
        None
    } else {
        match first_occurrence(s.drop_first(), t) {
            Some(i) => Some(i + 1),
            None => None,
        }
    }
}

/// `first_occurrence` is the least position where `t` occurs, or none when
/// `t` occurs nowhere.
pub proof fn lemma_first_occurrence(s: Seq<char>, t: Seq<char>)
    ensures
        match first_occurrence(s, t) {
            Some(i) => occurs_at(s, t, i) && forall|j: int| 0 <= j < i ==> !occurs_at(s, t, j),
            None => forall|j: int| !occurs_at(s, t, j),
        },
    decreases s.len(),
{
    if s.len() < t.len() {
    } else if s.take(t.len() as int) == t {
        assert(s.subrange(0, t.len() as int) =~= s.take(t.len() as int));
    } else if s.len() == 0 {
    } else {
        lemma_first_occurrence(s.drop_first(), t);
        assert(!occurs_at(s, t, 0)) by {
            assert(s.subrange(0, t.len() as int) =~= s.take(t.len() as int));
        }
        assert forall|j: int| 0 <= j && j + t.len() <= s.len() - 1 implies occurs_at(s, t, j + 1)
            == occurs_at(s.drop_first(), t, j) by {
            assert(s.subrange(j + 1, j + 1 + t.len()) =~= s.drop_first().subrange(j, j + t.len()));
        }
        match first_occurrence(s.drop_first(), t) {
            Some(i) => {
                assert forall|j: int| 0 <= j < i + 1 implies !occurs_at(s, t, j) by {
                    if j > 0 {
                        assert(!occurs_at(s.drop_first(), t, j - 1));
                    }
                }
            },
            None => {
                assert forall|j: int| !occurs_at(s, t, j) by {
                    if j > 0 && j + t.len() <= s.len() {
                        assert(!occurs_at(s.drop_first(), t, j - 1));
                    }
                }
            },
        }
    }
}

/// The pieces of `s` between the occurrences of `sep`, found from left to
/// right without overlap; an empty `sep` occurs before and after every
/// character, so that the pieces are an empty string, each character, and
/// an empty string.
pub open spec fn split_spec(s: Seq<char>, sep: Seq<char>) -> Seq<Seq<char>>
    decreases s.len(),
{
    if sep.len() == 0 {
        seq![Seq::<char>::empty()] + s.map_values(|c: char| seq![c]) + seq![Seq::<char>::empty()]
    } else {
        match first_occurrence(s, sep) {
            None => seq![s],
            Some(i) => {
                if 0 <= i && i + sep.len() <= s.len() {
                    seq![s.take(i)] + split_spec(s.skip(i + sep.len()), sep)
                } else {
                    seq![s]
                }
            },
        }
    }
}

/// An occurrence in `s` at or after `pos` is an occurrence in what follows `pos`.
proof fn lemma_occurs_skip(s: Seq<char>, t: Seq<char>, pos: int)
    requires
        0 <= pos <= s.len(),
    ensures
        forall|k: int| 0 <= k ==> occurs_at(s.skip(pos), t, k) == occurs_at(s, t, pos + k),
{
    assert forall|k: int| 0 <= k implies occurs_at(s.skip(pos), t, k) == occurs_at(s, t, pos + k) by {
        if 0 <= k && k + t.len() <= s.len() - pos {
            assert(s.skip(pos).subrange(k, k + t.len()) =~= s.subrange(pos + k, pos + k + t.len()));
        }
    }
}

/// The characters of `s` from position `from` up to `to`, as a new string.
fn substring(s: &str, from: usize, to: usize) -> (res: String)
    requires
        from <= to <= s@.len(),
    ensures
        res@ == s@.subrange(from as int, to as int),
{
    String::from_str(s.substring_char(from, to))
}

/// The pieces of `s` between the occurrences of `sep`.
pub fn std_string_split(s: &String, sep: &String) -> (res: std_Vec<String>)
    ensures
        string_views(res@) == split_spec(s@, sep@),
{
    let a = chars_of(s.as_str());
    let b = chars_of(sep.as_str());
    let mut pieces: Vec<String> = Vec::new();
    if b.len() == 0 {
        pieces.push(String::new());
        let mut k: usize = 0;
        while k < a.len()
            invariant
                a@ == s@,
                k <= a@.len(),
                string_views(pieces@) =~= seq![Seq::<char>::empty()] + s@.take(k as int).map_values(
                    |c: char| seq![c],
                ),
            decreases a@.len() - k,
        {
            let p = substring(s.as_str(), k, k + 1);
            let ghost before = string_views(pieces@);
            pieces.push(p);
            assert(string_views(pieces@) =~= before.push(p@));
            assert(s@.subrange(k as int, k + 1) =~= seq![s@[k as int]]);
            assert(s@.take(k + 1).map_values(|c: char| seq![c]) =~= s@.take(k as int).map_values(
                |c: char| seq![c],
            ).push(seq![s@[k as int]]));
            k = k + 1;
        }
        pieces.push(String::new());
        assert(s@.take(a@.len() as int) =~= s@);
        return std_Vec { x: pieces };
    }
    let mut pos: usize = 0;
    let alen = a.len();
    assert(s@.skip(0) =~= s@);
    assert(string_views(pieces@) =~= Seq::<Seq<char>>::empty());
    loop
        invariant
            alen == a@.len(),
            a@ == s@,
            b@ == sep@,
            sep@.len() > 0,
            pos <= s@.len(),
            split_spec(s@, sep@) == string_views(pieces@) + split_spec(s@.skip(pos as int), sep@),
        decreases s@.len() - pos,
    {
        let ghost rest = s@.skip(pos as int);
        proof {
            lemma_first_occurrence(rest, sep@);
            lemma_occurs_skip(s@, sep@, pos as int);
        }
        match find_from(&a, &b, pos) {
            Some(i) => {
                assert(first_occurrence(rest, sep@) == Some(i - pos)) by {
                    match first_occurrence(rest, sep@) {
                        Some(k) => {
                            assert(occurs_at(s@, sep@, pos + k));
                            if pos + k < i {
                            } else if pos + k > i {
                                assert(!occurs_at(rest, sep@, i - pos));
                            }
                        },
                        None => {
                            assert(!occurs_at(rest, sep@, i - pos));
                        },
                    }
                }
                let p = substring(s.as_str(), pos, i);
                let ghost before = string_views(pieces@);
                pieces.push(p);
                assert(string_views(pieces@) =~= before.push(s@.subrange(pos as int, i as int)));
                assert(rest.take(i - pos) =~= s@.subrange(pos as int, i as int));
                assert(rest.skip(i - pos + sep@.len()) =~= s@.skip(i + sep@.len()));
                assert(seq![rest.take(i - pos)] + split_spec(
                    rest.skip(i - pos + sep@.len()),
                    sep@,
                ) == split_spec(rest, sep@));
                assert(before + split_spec(rest, sep@) =~= before.push(rest.take(i - pos))
                    + split_spec(rest.skip(i - pos + sep@.len()), sep@));
                pos = i + b.len();
            },
            None => {
                assert(first_occurrence(rest, sep@) is None) by {
                    match first_occurrence(rest, sep@) {
                        Some(k) => {
                            assert(occurs_at(s@, sep@, pos + k));
                        },
                        None => {},
                    }
                }
                let p = substring(s.as_str(), pos, a.len());
                let ghost before = string_views(pieces@);
                pieces.push(p);
                assert(rest =~= s@.subrange(pos as int, s@.len() as int));
                assert(string_views(pieces@) =~= before + seq![rest]);
                return std_Vec { x: pieces };
            },
        }
    }
}

/// The byte position where `std_string_substr` starts: `start`, or the
/// byte length `blen` if that is smaller.
pub open spec fn substr_from(blen: int, start: u64) -> int {
    if start < blen {
        start as int
    } else {
        blen
    }
}

/// The byte position where `std_string_substr` ends: `end`, or the byte
/// length `blen` if that is smaller, and never before the start.
pub open spec fn substr_to(blen: int, start: u64, end: u64) -> int {
    let from = substr_from(blen, start);
    let e = if end < blen {
        end as int
    } else {
        blen
    };
    if from > e {
        from
    } else {
        e
    }
}

/// The part of `s` between the byte positions `start` and `end`, both
/// clamped to the length of `s`; the positions must fall on character
/// boundaries.
pub fn std_string_substr(s: &String, start: &u64, end: &u64) -> (res: String)
    requires
        vstd::utf8::is_char_boundary(
            vstd::utf8::encode_utf8(s@),
            substr_from(vstd::utf8::encode_utf8(s@).len() as int, *start),
        ),
        vstd::utf8::is_char_boundary(
            vstd::utf8::encode_utf8(s@),
            substr_to(vstd::utf8::encode_utf8(s@).len() as int, *start, *end),
        ),
    ensures
        vstd::utf8::encode_utf8(res@) == vstd::utf8::encode_utf8(s@).subrange(
            substr_from(vstd::utf8::encode_utf8(s@).len() as int, *start),
            substr_to(vstd::utf8::encode_utf8(s@).len() as int, *start, *end),
        ),
{
    let ghost bytes = vstd::utf8::encode_utf8(s@);
    let st = s.as_str();
    let blen = st.as_bytes().len();
    let from: usize = if *start < blen as u64 {
        *start as usize
    } else {
        blen
    };
    let e: usize = if *end < blen as u64 {
        *end as usize
    } else {
        blen
    };
    let to: usize = if from > e {
        from
    } else {
        e
    };
    assert(from == substr_from(bytes.len() as int, *start));
    assert(to == substr_to(bytes.len() as int, *start, *end));
    let (head, _) = st.split_at(to);
    proof {
        let hb = head.spec_bytes();
        vstd::utf8::encode_utf8_valid_utf8(s@);
        vstd::utf8::encode_utf8_valid_utf8(head@);
        assert(hb =~= bytes.subrange(0, to as int));
        if from == to {
            vstd::utf8::is_char_boundary_start_end_of_seq(hb);
        } else if from > 0 {
            vstd::utf8::is_char_boundary_iff_not_is_continuation_byte(bytes, from as int);
            vstd::utf8::is_char_boundary_iff_not_is_continuation_byte(hb, from as int);
        }
    }
    let (_, mid) = head.split_at(from);
    proof {
        assert(mid.spec_bytes() =~= bytes.subrange(from as int, to as int));
    }
    String::from_str(mid)
}

/// `str::to_lowercase`: the string whose characters are the lowercase
/// mappings, under Unicode, of the characters of its argument.
pub uninterp spec fn to_lowercase(s: Seq<char>) -> Seq<char>;

/// `str::to_lowercase`: the lowercase form of `s`, as Unicode defines it.
#[verifier::external_body]
fn lowercase(s: &str) -> (res: String)
    ensures
        res@ == to_lowercase(s@),
{
    s.to_lowercase()
}

/// The lowercase form of `s`.
pub fn std_str_to_lower(s: &String) -> (res: String)
    ensures
        res@ == to_lowercase(s@),
{
    lowercase(s.as_str())
}

/// Whether `c` is one of the ASCII digits `0` to `9`.
pub open spec fn is_decimal_digit(c: char) -> bool {
    '0' <= c && c <= '9'
}

/// Whether every character of `d` is a decimal digit.
pub open spec fn all_decimal_digits(d: Seq<char>) -> bool {
    forall|i: int| 0 <= i < d.len() ==> is_decimal_digit(#[trigger] d[i])
}

/// The number that the decimal digits `d` write.
pub open spec fn decimal_value(d: Seq<char>) -> int
    decreases d.len(),
{
    if d.len() == 0 {
        0
    } else {
        decimal_value(d.drop_last()) * 10 + (d.last() as int - '0' as int)
    }
}

/// What follows an optional leading `+`.
pub open spec fn without_plus(s: Seq<char>) -> Seq<char> {
    if s.len() > 0 && s[0] == '+' {
        s.drop_first()
    } else {
        s
    }
}

/// The unsigned 64-bit integer that `s` writes in decimal: an optional `+`,
/// then one digit or more, with a value that fits.
pub open spec fn spec_parse_dec_u64(s: Seq<char>) -> Option<u64> {
    let d = without_plus(s);
    if d.len() > 0 && all_decimal_digits(d) && decimal_value(d) <= u64::MAX {
        Some(decimal_value(d) as u64)
    } else {
        None
    }
}

/// The signed 64-bit integer that `s` writes in decimal: an optional `+` or
/// `-`, then one digit or more, with a value that fits.
pub open spec fn spec_parse_dec_i64(s: Seq<char>) -> Option<i64> {
    if s.len() > 0 && s[0] == '-' {
        let d = s.drop_first();
        if d.len() > 0 && all_decimal_digits(d) && decimal_value(d) <= 0x8000_0000_0000_0000 {
            Some((-decimal_value(d)) as i64)
        } else {
            None
        }
    } else {
        let d = without_plus(s);
        if d.len() > 0 && all_decimal_digits(d) && decimal_value(d) <= i64::MAX {
            Some(decimal_value(d) as i64)
        } else {
            None
        }
    }
}

/// The value of decimal digits is never negative, and no prefix of the
/// digits writes a larger number than the digits do.
proof fn lemma_decimal_value_prefix(d: Seq<char>, i: int)
    requires
        all_decimal_digits(d),
        0 <= i <= d.len(),
    ensures
        0 <= decimal_value(d.take(i)) <= decimal_value(d),
    decreases d.len(),
{
    if d.len() > 0 {
        assert(is_decimal_digit(d[d.len() - 1]));
        if i < d.len() {
            assert(d.drop_last().take(i) =~= d.take(i));
            lemma_decimal_value_prefix(d.drop_last(), i);
        } else {
            assert(d.take(i) =~= d);
            lemma_decimal_value_prefix(d.drop_last(), i - 1);
            assert(d.drop_last().take(i - 1) =~= d.drop_last());
        }
    } else {
        assert(d.take(i) =~= d);
    }
}

/// The number that the decimal digits of `d` from position `start` on
/// write, if there is at least one, all are digits, and it fits.
fn parse_digits(d: &Vec<char>, start: usize) -> (res: Option<u64>)
    requires
        start <= d@.len(),
    ensures
        ({
            let t = d@.skip(start as int);
            match res {
                Some(v) => t.len() > 0 && all_decimal_digits(t) && decimal_value(t) == v,
                None => !(t.len() > 0 && all_decimal_digits(t) && decimal_value(t) <= u64::MAX),
            }
        }),
{
    let ghost t = d@.skip(start as int);
    if start == d.len() {
        return None;
    }
    let mut acc: u64 = 0;
    let mut i: usize = start;
    assert(t.take(0) =~= Seq::<char>::empty());
    while i < d.len()
        invariant
            start <= i <= d@.len(),
            t == d@.skip(start as int),
            all_decimal_digits(t.take(i - start)),
            acc == decimal_value(t.take(i - start)),
        decreases d@.len() - i,
    {
        let c = d[i];
        assert(t[i - start] == c);
        if !('0' <= c && c <= '9') {
            assert(!all_decimal_digits(t));
            return None;
        }
        let dig = (c as u32 - '0' as u32) as u64;
        assert(t.take(i - start + 1).drop_last() =~= t.take(i - start));
        assert(all_decimal_digits(t.take(i - start + 1)));
        match acc.checked_mul(10) {
            None => {
                proof {
                    if all_decimal_digits(t) {
                        lemma_decimal_value_prefix(t, i - start + 1);
                    }
                }
                return None;
            },
            Some(m) => match m.checked_add(dig) {
                None => {
                    proof {
                        if all_decimal_digits(t) {
                            lemma_decimal_value_prefix(t, i - start + 1);
                        }
                    }
                    return None;
                },
                Some(v) => {
                    acc = v;
                },
            },
        }
        i = i + 1;
    }
    assert(t.take(i - start) =~= t);
    Some(acc)
}

/// The unsigned 64-bit integer that `s` writes in decimal, if it writes one.
pub fn std_parse_dec_u64(s: &String) -> (res: std_Option<u64>)
    ensures
        res == spec_option2std(spec_parse_dec_u64(s@)),
{
    let d = chars_of(s.as_str());
    let start: usize = if d.len() > 0 && d[0] == '+' {
        1
    } else {
        0
    };
    assert(d@.skip(start as int) =~= without_plus(s@));
    match parse_digits(&d, start) {
        Some(v) => std_Option::std_Some { x: v },
        None => std_Option::std_None,
    }
}

/// The signed 64-bit integer that `s` writes in decimal, if it writes one.
pub fn std_parse_dec_i64(s: &String) -> (res: std_Option<i64>)
    ensures
        res == spec_option2std(spec_parse_dec_i64(s@)),
{
    let d = chars_of(s.as_str());
    if d.len() > 0 && d[0] == '-' {
        assert(d@.skip(1) =~= s@.drop_first());
        match parse_digits(&d, 1) {
            Some(v) => {
                if v <= 0x8000_0000_0000_0000 {
                    let r: i64 = if v == 0x8000_0000_0000_0000 {
                        -9223372036854775808
                    } else {
                        -(v as i64)
                    };
                    std_Option::std_Some { x: r }
                } else {
                    std_Option::std_None
                }
            },
            None => std_Option::std_None,
        }
    } else {
        let start: usize = if d.len() > 0 && d[0] == '+' {
            1
        } else {
            0
        };
        assert(d@.skip(start as int) =~= without_plus(s@));
        match parse_digits(&d, start) {
            Some(v) => {
                if v <= 0x7fff_ffff_ffff_ffff {
                    std_Option::std_Some { x: v as i64 }
                } else {
                    std_Option::std_None
                }
            },
            None => std_Option::std_None,
        }
    }
}

} // verus!
