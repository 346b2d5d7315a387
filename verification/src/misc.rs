//! Smaller functions of the Datalog standard library: shared references,
//! the larger and smaller of two values, powers, ranges, byte order, and
//! hashing.
use vstd::prelude::*;
use std::sync::Arc;
use std::hash::Hash;
use std::hash::Hasher;
use crate::vec::std_Vec;
use crate::group::std_Ref;
use crate::order::{lawful_order, precedes, lt};
use vstd::arithmetic::power::pow;

verus! {

/// A shared copy of (a clone of) `x`.
pub fn std_ref_new<A: Clone>(x: &A) -> (res: std_Ref<A>)
    ensures
        cloned(*x, *res),
{
    Arc::new(x.clone())
}

/// The value that `x` shares.
pub fn std_deref<A: Clone>(x: &std_Ref<A>) -> (res: &A)
    ensures
        *res == **x,
{
    &**x
}

/// A clone of the larger of `x` and `y`; `x` where they are equal.
pub fn std_max<A: Ord + Clone>(x: &A, y: &A) -> (res: A)
    requires
        lawful_order::<A>(),
    ensures
        !precedes(*x, *y) ==> cloned(*x, res),
        precedes(*x, *y) ==> cloned(*y, res),
{
    if !lt(x, y) {
        x.clone()
    } else {
        y.clone()
    }
}

/// A clone of the smaller of `x` and `y`; `x` where they are equal.
pub fn std_min<A: Ord + Clone>(x: &A, y: &A) -> (res: A)
    requires
        lawful_order::<A>(),
    ensures
        !precedes(*y, *x) ==> cloned(*x, res),
        precedes(*y, *x) ==> cloned(*y, res),
{
    if !lt(y, x) {
        x.clone()
    } else {
        y.clone()
    }
}

/// `num::pow::pow` on `u64`: `base` raised to the power `exp`, computed by
/// repeated squaring (no intermediate product exceeds the result).
#[verifier::external_body]
fn num_pow(base: u64, exp: usize) -> (res: u64)
    requires
        pow(base as int, exp as nat) <= u64::MAX,
    ensures
        res == pow(base as int, exp as nat),
{
    num::pow::pow(base, exp)
}

/// `base` raised to the power `exp`.
pub fn std_pow32(base: &u64, exp: &u32) -> (res: u64)
    requires
        pow(*base as int, *exp as nat) <= u64::MAX,
    ensures
        res == pow(*base as int, *exp as nat),
{
    num_pow(*base, *exp as usize)
}

/// The values from `from` up to `to`, inclusive, in steps of `step`.
pub open spec fn range_seq(from: int, to: int, step: int) -> Seq<int>
    decreases (if from <= to {
        to - from + 1
    } else {
        0
    }),
    when step > 0 || from > to
{
    if from > to {
        Seq::empty()
    } else {
        seq![from] + range_seq(from + step, to, step)
    }
}

/// Whether every step of `range_seq(from, to, step)` stays within `i64`.
pub open spec fn range_fits(from: int, to: int, step: int) -> bool
    decreases (if from <= to {
        to - from + 1
    } else {
        0
    }),
    when step > 0 || from > to
{
    from > to || (from + step <= i64::MAX && range_fits(from + step, to, step))
}

/// The values from `from` up to `to`, inclusive, in steps of `step`.
pub fn std_range(from: &i64, to: &i64, step: &i64) -> (res: std_Vec<i64>)
    requires
        *from > *to || *step > 0,
        range_fits(*from as int, *to as int, *step as int),
    ensures
        res@.map_values(|v: i64| v as int) == range_seq(*from as int, *to as int, *step as int),
{
    let mut v: Vec<i64> = Vec::new();
    let mut x: i64 = *from;
    let ghost whole = range_seq(*from as int, *to as int, *step as int);
    assert(v@.map_values(|e: i64| e as int) =~= Seq::<int>::empty());
    while x <= *to
        invariant
            x > *to || *step > 0,
            range_fits(x as int, *to as int, *step as int),
            whole == v@.map_values(|e: i64| e as int) + range_seq(
                x as int,
                *to as int,
                *step as int,
            ),
        decreases (if x <= *to {
            *to - x + 1
        } else {
            0
        }),
    {
        let ghost before = v@.map_values(|e: i64| e as int);
        v.push(x);
        assert(v@.map_values(|e: i64| e as int) =~= before.push(x as int));
        assert(before + range_seq(x as int, *to as int, *step as int) =~= before.push(x as int)
            + range_seq(x + *step, *to as int, *step as int));
        x = x + *step;
    }
    assert(whole =~= v@.map_values(|e: i64| e as int));
    std_Vec { x: v }
}

/// The bytes of `x` in the opposite order.
pub open spec fn swap_bytes32(x: u32) -> u32 {
    ((x & 0xff) << 24) | (((x >> 8) & 0xff) << 16) | (((x >> 16) & 0xff) << 8) | ((x >> 24) & 0xff)
}

/// The bytes of `x` in the opposite order.
pub open spec fn swap_bytes16(x: u16) -> u16 {
    ((x & 0xff) << 8) | ((x >> 8) & 0xff)
}

/// `u32::from_be`: `x` read in big-endian byte order, which on a
/// little-endian machine swaps its bytes and on a big-endian one keeps them.
#[verifier::external_body]
fn u32_from_be(x: u32) -> (res: u32)
    ensures
        res == x || res == swap_bytes32(x),
{
    u32::from_be(x)
}

/// `u16::from_be`: as for `u32`.
#[verifier::external_body]
fn u16_from_be(x: u16) -> (res: u16)
    ensures
        res == x || res == swap_bytes16(x),
{
    u16::from_be(x)
}

/// `u32::to_be`: `x` in big-endian byte order, which on a little-endian
/// machine swaps its bytes and on a big-endian one keeps them.
#[verifier::external_body]
fn u32_to_be(x: u32) -> (res: u32)
    ensures
        res == x || res == swap_bytes32(x),
{
    x.to_be()
}

/// `u16::to_be`: as for `u32`.
#[verifier::external_body]
fn u16_to_be(x: u16) -> (res: u16)
    ensures
        res == x || res == swap_bytes16(x),
{
    x.to_be()
}

/// `x`, a 32-bit integer in network byte order, in the machine's byte order.
pub fn std_ntohl(x: &u32) -> (res: u32)
    ensures
        res == *x || res == swap_bytes32(*x),
{
    u32_from_be(*x)
}

/// `x`, a 16-bit integer in network byte order, in the machine's byte order.
pub fn std_ntohs(x: &u16) -> (res: u16)
    ensures
        res == *x || res == swap_bytes16(*x),
{
    u16_from_be(*x)
}

/// `x`, a 32-bit integer in the machine's byte order, in network byte order.
pub fn std_htonl(x: &u32) -> (res: u32)
    ensures
        res == *x || res == swap_bytes32(*x),
{
    u32_to_be(*x)
}

/// `x`, a 16-bit integer in the machine's byte order, in network byte order.
pub fn std_htons(x: &u16) -> (res: u16)
    ensures
        res == *x || res == swap_bytes16(*x),
{
    u16_to_be(*x)
}

/// The seed of the first hash.
pub const XX_SEED1: u64 = 0x23b691a751d0e108;

/// The seed of the second hash.
pub const XX_SEED2: u64 = 0x20b09801dce5ff84;

/// The 64-bit xxHash hasher of `twox_hash`.
#[verifier::external_type_specification]
#[verifier::external_body]
pub struct ExXxHash64(twox_hash::XxHash64);

/// `twox_hash::XxHash64::with_seed`: a hasher that has read nothing yet,
/// with seed `seed`. The hasher is opaque here.
#[verifier::external_body]
fn xxhash_with_seed(seed: u64) -> twox_hash::XxHash64 {
    twox_hash::XxHash64::with_seed(seed)
}

/// `Hash::hash`: `x` writes its bytes into `hasher`. Which bytes depends on
/// `x`'s implementation and, for integers, on the machine's byte order, so
/// nothing is stated of the hasher afterwards.
#[verifier::external_body]
fn hash_into<T: Hash>(x: &T, hasher: &mut twox_hash::XxHash64) {
    x.hash(hasher)
}

/// `Hasher::finish` of `twox_hash::XxHash64`: the hash of the bytes read so
/// far. Since what was read is not stated, nothing is stated of the result.
#[verifier::external_body]
fn hasher_finish(hasher: &twox_hash::XxHash64) -> u64 {
    hasher.finish()
}

/// The 64-bit xxHash, with seed `seed`, of the bytes that `x` writes.
fn seeded_hash<T: Hash>(x: &T, seed: u64) -> u64 {
    let mut hasher = xxhash_with_seed(seed);
    hash_into(x, &mut hasher);
    hasher_finish(&hasher)
}

/// The 64-bit hash of `x`, with the first seed.
pub fn std_hash64<T: Hash>(x: &T) -> u64 {
    seeded_hash(x, XX_SEED1)
}

/// The 128-bit number whose high half is `w1` and low half is `w2`.
pub fn combine_hash_words(w1: u64, w2: u64) -> (res: u128)
    ensures
        res == w1 * 0x1_0000_0000_0000_0000 + w2,
{
    let r = ((w1 as u128) << 64u128) | (w2 as u128);
    assert(r == w1 * 0x1_0000_0000_0000_0000 + w2) by (bit_vector)
        requires
            r == ((w1 as u128) << 64u128) | (w2 as u128),
    ;
    r
}

/// The 128-bit hash of `x`: the hash with the first seed in the high half
/// and the hash with the second seed in the low half.
pub fn std_hash128<T: Hash>(x: &T) -> u128 {
    let w1 = seeded_hash(x, XX_SEED1);
    let w2 = seeded_hash(x, XX_SEED2);
    combine_hash_words(w1, w2)
}

} // verus!
