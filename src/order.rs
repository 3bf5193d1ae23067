//! What the order of `FloatOrd` is: a total order that agrees with the native
//! order of the numbers, places the signed NaNs at the two ends, and tells the
//! two zeros apart.
use vstd::prelude::*;

use core::cmp::Ordering;

use crate::ieee::{
    abs_bits64, is_nan64, is_negative64, key64, lemma_magnitude_strictly_increases, lemma_magnitude_zero,
    native_le64, native_lt64, value64, ABS64, SIGN64,
};
use crate::ieee::{
    abs_bits32, is_nan32, is_negative32, key32, native_le32, native_lt32, value32, ABS32, SIGN32,
};
use crate::ieee::{order32, order64};
use crate::ord::FloatOrd;

verus! {

/// Facts on the bits of binary64 keys.
proof fn lemma_key_bits64(a: u64, b: u64)
    ensures
        a & SIGN64 == 0 ==> a & ABS64 == a,
        a & SIGN64 == 0 && b & SIGN64 == 0 && a < b ==> (a | SIGN64) < (b | SIGN64),
        a & SIGN64 != 0 && b & SIGN64 == 0 ==> !a < (b | SIGN64),
        a & SIGN64 != 0 && b & SIGN64 != 0 && (b & ABS64) < (a & ABS64) ==> !a < !b,
        a & SIGN64 != 0 && b & SIGN64 != 0 && (b & ABS64) == (a & ABS64) ==> a == b,
        key64(a) == key64(b) ==> a == b,
{
    assert(a & 0x8000_0000_0000_0000u64 == 0 ==> a & 0x7FFF_FFFF_FFFF_FFFFu64 == a) by (bit_vector);
    assert(a & 0x8000_0000_0000_0000u64 == 0 && b & 0x8000_0000_0000_0000u64 == 0 && a < b
        ==> (a | 0x8000_0000_0000_0000u64) < (b | 0x8000_0000_0000_0000u64)) by (bit_vector);
    assert(a & 0x8000_0000_0000_0000u64 != 0 && b & 0x8000_0000_0000_0000u64 == 0
        ==> !a < (b | 0x8000_0000_0000_0000u64)) by (bit_vector);
    assert(a & 0x8000_0000_0000_0000u64 != 0 && b & 0x8000_0000_0000_0000u64 != 0
        && (b & 0x7FFF_FFFF_FFFF_FFFFu64) < (a & 0x7FFF_FFFF_FFFF_FFFFu64) ==> !a < !b)
        by (bit_vector);
    assert(a & 0x8000_0000_0000_0000u64 != 0 && b & 0x8000_0000_0000_0000u64 != 0
        && (b & 0x7FFF_FFFF_FFFF_FFFFu64) == (a & 0x7FFF_FFFF_FFFF_FFFFu64) ==> a == b)
        by (bit_vector);
    assert((if a & 0x8000_0000_0000_0000u64 == 0 { a | 0x8000_0000_0000_0000u64 } else { !a })
        == (if b & 0x8000_0000_0000_0000u64 == 0 { b | 0x8000_0000_0000_0000u64 } else { !b })
        ==> a == b) by (bit_vector);
}

/// Equality of binary64 values is equality of their bit patterns: it tells
/// NaN payloads and the two zeros apart, and equal values, having one key,
/// hash alike.
pub proof fn lemma_eq_is_identity64(a: FloatOrd<u64>, b: FloatOrd<u64>)
    ensures
        key64(a.0) == key64(b.0) <==> a.0 == b.0,
        key64(a.0) == key64(b.0) <==> a == b,
{
    lemma_key_bits64(a.0, b.0);
}

/// The order of binary64 values is total: each pair is ordered one way only,
/// the order is antisymmetric, and it is transitive.
pub proof fn lemma_total_order64(a: FloatOrd<u64>, b: FloatOrd<u64>, c: FloatOrd<u64>)
    ensures
                (order64(a.0, b.0) == (Ordering::Equal)) <==> a.0 == b.0,
        (order64(a.0, b.0) == (Ordering::Less)) <==> (order64(b.0, a.0) == (Ordering::Greater)),
        order64(a.0, b.0) == (Ordering::Less) && order64(b.0, c.0) == (Ordering::Less)
            ==> order64(a.0, c.0) == (Ordering::Less),
{
    lemma_key_bits64(a.0, b.0);
}

/// The order agrees with the native `<` on every pair of non-NaN binary64
/// values, infinities included.
pub proof fn lemma_native_lt64(a: FloatOrd<u64>, b: FloatOrd<u64>)
    requires
        native_lt64(a.0, b.0),
    ensures
        order64(a.0, b.0) == Ordering::Less,
{
    let (x, y) = (a.0, b.0);
    lemma_key_bits64(x, y);
    lemma_key_bits64(y, x);
    let ax = abs_bits64(x) as int;
    let ay = abs_bits64(y) as int;
    if is_negative64(x) == is_negative64(y) {
        if ax < ay {
            lemma_magnitude_strictly_increases(ax, ay, 52);
        } else if ay < ax {
            lemma_magnitude_strictly_increases(ay, ax, 52);
        }
        if is_negative64(x) {
            assert(ay < ax);
            assert(!x < !y);
        } else {
            assert(ax < ay);
            assert(x < y);
        }
    } else if !is_negative64(x) {
        if ax > 0 {
            lemma_magnitude_strictly_increases(0, ax, 52);
        }
        if ay > 0 {
            lemma_magnitude_strictly_increases(0, ay, 52);
        }
        lemma_magnitude_zero(52);
    }
}

/// The order agrees with the native `<=` on every pair of non-NaN binary64
/// values but one: `+0.0 <= -0.0` holds natively, while here `-0.0` lies
/// strictly below `+0.0`.
pub proof fn lemma_native_le64(a: FloatOrd<u64>, b: FloatOrd<u64>)
    requires
        native_le64(a.0, b.0),
        !(a.0 == 0 && b.0 == SIGN64),
    ensures
        order64(a.0, b.0) != Ordering::Greater,
{
    let (x, y) = (a.0, b.0);
    if value64(x) < value64(y) {
        lemma_native_lt64(a, b);
    } else {
        lemma_key_bits64(x, y);
        lemma_key_bits64(y, x);
        let ax = abs_bits64(x) as int;
        let ay = abs_bits64(y) as int;
        if ax < ay {
            lemma_magnitude_strictly_increases(ax, ay, 52);
        } else if ay < ax {
            lemma_magnitude_strictly_increases(ay, ax, 52);
        }
        if is_negative64(x) != is_negative64(y) && !is_negative64(x) {
            lemma_magnitude_zero(52);
            if ax > 0 {
                lemma_magnitude_strictly_increases(0, ax, 52);
            }
            if ay > 0 {
                lemma_magnitude_strictly_increases(0, ay, 52);
            }
            assert(ax == 0 && ay == 0);
            assert(x & 0x7FFF_FFFF_FFFF_FFFFu64 == 0 && x & 0x8000_0000_0000_0000u64 == 0 ==> x == 0)
                by (bit_vector);
            assert(y & 0x7FFF_FFFF_FFFF_FFFFu64 == 0 && y & 0x8000_0000_0000_0000u64 != 0
                ==> y == 0x8000_0000_0000_0000u64) by (bit_vector);
        }
    }
}

/// `-0.0` lies strictly below `+0.0`, and the two are unequal.
pub proof fn lemma_signed_zeros64()
    ensures
        order64(SIGN64, 0) == Ordering::Less,
        key64(SIGN64) != key64(0),
{
    assert(0x8000_0000_0000_0000u64 & 0x8000_0000_0000_0000u64 != 0) by (bit_vector);
    assert(0u64 & 0x8000_0000_0000_0000u64 == 0) by (bit_vector);
    assert(!0x8000_0000_0000_0000u64 < (0u64 | 0x8000_0000_0000_0000u64)) by (bit_vector);
}

/// A negative NaN lies below every non-NaN binary64 value, infinities
/// included, a positive NaN above every one, and the negative NaN below the
/// positive one.
pub proof fn lemma_nan_placement64(neg_nan: FloatOrd<u64>, v: FloatOrd<u64>, pos_nan: FloatOrd<u64>)
    requires
        is_nan64(neg_nan.0) && is_negative64(neg_nan.0),
        !is_nan64(v.0),
        is_nan64(pos_nan.0) && !is_negative64(pos_nan.0),
    ensures
        order64(neg_nan.0, v.0) == Ordering::Less,
        order64(v.0, pos_nan.0) == Ordering::Less,
        order64(neg_nan.0, pos_nan.0) == Ordering::Less,
{
    let (n, x, p) = (neg_nan.0, v.0, pos_nan.0);
    lemma_key_bits64(n, x);
    lemma_key_bits64(x, p);
    lemma_key_bits64(n, p);
    lemma_key_bits64(p, x);
    lemma_key_bits64(x, n);
}

/// Facts on the bits of binary32 keys.
proof fn lemma_key_bits32(a: u32, b: u32)
    ensures
        a & SIGN32 == 0 ==> a & ABS32 == a,
        a & SIGN32 == 0 && b & SIGN32 == 0 && a < b ==> (a | SIGN32) < (b | SIGN32),
        a & SIGN32 != 0 && b & SIGN32 == 0 ==> !a < (b | SIGN32),
        a & SIGN32 != 0 && b & SIGN32 != 0 && (b & ABS32) < (a & ABS32) ==> !a < !b,
        a & SIGN32 != 0 && b & SIGN32 != 0 && (b & ABS32) == (a & ABS32) ==> a == b,
        key32(a) == key32(b) ==> a == b,
{
    assert(a & 0x8000_0000u32 == 0 ==> a & 0x7FFF_FFFFu32 == a) by (bit_vector);
    assert(a & 0x8000_0000u32 == 0 && b & 0x8000_0000u32 == 0 && a < b
        ==> (a | 0x8000_0000u32) < (b | 0x8000_0000u32)) by (bit_vector);
    assert(a & 0x8000_0000u32 != 0 && b & 0x8000_0000u32 == 0
        ==> !a < (b | 0x8000_0000u32)) by (bit_vector);
    assert(a & 0x8000_0000u32 != 0 && b & 0x8000_0000u32 != 0
        && (b & 0x7FFF_FFFFu32) < (a & 0x7FFF_FFFFu32) ==> !a < !b)
        by (bit_vector);
    assert(a & 0x8000_0000u32 != 0 && b & 0x8000_0000u32 != 0
        && (b & 0x7FFF_FFFFu32) == (a & 0x7FFF_FFFFu32) ==> a == b)
        by (bit_vector);
    assert((if a & 0x8000_0000u32 == 0 { a | 0x8000_0000u32 } else { !a })
        == (if b & 0x8000_0000u32 == 0 { b | 0x8000_0000u32 } else { !b })
        ==> a == b) by (bit_vector);
}

/// Equality of binary32 values is equality of their bit patterns: it tells
/// NaN payloads and the two zeros apart, and equal values, having one key,
/// hash alike.
pub proof fn lemma_eq_is_identity32(a: FloatOrd<u32>, b: FloatOrd<u32>)
    ensures
        key32(a.0) == key32(b.0) <==> a.0 == b.0,
        key32(a.0) == key32(b.0) <==> a == b,
{
    lemma_key_bits32(a.0, b.0);
}

/// The order of binary32 values is total: each pair is ordered one way only,
/// the order is antisymmetric, and it is transitive.
pub proof fn lemma_total_order32(a: FloatOrd<u32>, b: FloatOrd<u32>, c: FloatOrd<u32>)
    ensures
                (order32(a.0, b.0) == (Ordering::Equal)) <==> a.0 == b.0,
        (order32(a.0, b.0) == (Ordering::Less)) <==> (order32(b.0, a.0) == (Ordering::Greater)),
        order32(a.0, b.0) == (Ordering::Less) && order32(b.0, c.0) == (Ordering::Less)
            ==> order32(a.0, c.0) == (Ordering::Less),
{
    lemma_key_bits32(a.0, b.0);
}

/// The order agrees with the native `<` on every pair of non-NaN binary32
/// values, infinities included.
pub proof fn lemma_native_lt32(a: FloatOrd<u32>, b: FloatOrd<u32>)
    requires
        native_lt32(a.0, b.0),
    ensures
        order32(a.0, b.0) == Ordering::Less,
{
    let (x, y) = (a.0, b.0);
    lemma_key_bits32(x, y);
    lemma_key_bits32(y, x);
    let ax = abs_bits32(x) as int;
    let ay = abs_bits32(y) as int;
    if is_negative32(x) == is_negative32(y) {
        if ax < ay {
            lemma_magnitude_strictly_increases(ax, ay, 23);
        } else if ay < ax {
            lemma_magnitude_strictly_increases(ay, ax, 23);
        }
        if is_negative32(x) {
            assert(ay < ax);
            assert(!x < !y);
        } else {
            assert(ax < ay);
            assert(x < y);
        }
    } else if !is_negative32(x) {
        if ax > 0 {
            lemma_magnitude_strictly_increases(0, ax, 23);
        }
        if ay > 0 {
            lemma_magnitude_strictly_increases(0, ay, 23);
        }
        lemma_magnitude_zero(23);
    }
}

/// The order agrees with the native `<=` on every pair of non-NaN binary32
/// values but one: `+0.0 <= -0.0` holds natively, while here `-0.0` lies
/// strictly below `+0.0`.
pub proof fn lemma_native_le32(a: FloatOrd<u32>, b: FloatOrd<u32>)
    requires
        native_le32(a.0, b.0),
        !(a.0 == 0 && b.0 == SIGN32),
    ensures
        order32(a.0, b.0) != Ordering::Greater,
{
    let (x, y) = (a.0, b.0);
    if value32(x) < value32(y) {
        lemma_native_lt32(a, b);
    } else {
        lemma_key_bits32(x, y);
        lemma_key_bits32(y, x);
        let ax = abs_bits32(x) as int;
        let ay = abs_bits32(y) as int;
        if ax < ay {
            lemma_magnitude_strictly_increases(ax, ay, 23);
        } else if ay < ax {
            lemma_magnitude_strictly_increases(ay, ax, 23);
        }
        if is_negative32(x) != is_negative32(y) && !is_negative32(x) {
            lemma_magnitude_zero(23);
            if ax > 0 {
                lemma_magnitude_strictly_increases(0, ax, 23);
            }
            if ay > 0 {
                lemma_magnitude_strictly_increases(0, ay, 23);
            }
            assert(ax == 0 && ay == 0);
            assert(x & 0x7FFF_FFFFu32 == 0 && x & 0x8000_0000u32 == 0 ==> x == 0)
                by (bit_vector);
            assert(y & 0x7FFF_FFFFu32 == 0 && y & 0x8000_0000u32 != 0
                ==> y == 0x8000_0000u32) by (bit_vector);
        }
    }
}

/// `-0.0` lies strictly below `+0.0`, and the two are unequal.
pub proof fn lemma_signed_zeros32()
    ensures
        order32(SIGN32, 0) == Ordering::Less,
        key32(SIGN32) != key32(0),
{
    assert(0x8000_0000u32 & 0x8000_0000u32 != 0) by (bit_vector);
    assert(0u32 & 0x8000_0000u32 == 0) by (bit_vector);
    assert(!0x8000_0000u32 < (0u32 | 0x8000_0000u32)) by (bit_vector);
}

/// A negative NaN lies below every non-NaN binary32 value, infinities
/// included, a positive NaN above every one, and the negative NaN below the
/// positive one.
pub proof fn lemma_nan_placement32(neg_nan: FloatOrd<u32>, v: FloatOrd<u32>, pos_nan: FloatOrd<u32>)
    requires
        is_nan32(neg_nan.0) && is_negative32(neg_nan.0),
        !is_nan32(v.0),
        is_nan32(pos_nan.0) && !is_negative32(pos_nan.0),
    ensures
        order32(neg_nan.0, v.0) == Ordering::Less,
        order32(v.0, pos_nan.0) == Ordering::Less,
        order32(neg_nan.0, pos_nan.0) == Ordering::Less,
{
    let (n, x, p) = (neg_nan.0, v.0, pos_nan.0);
    lemma_key_bits32(n, x);
    lemma_key_bits32(x, p);
    lemma_key_bits32(n, p);
    lemma_key_bits32(p, x);
    lemma_key_bits32(x, n);
}

} // verus!
