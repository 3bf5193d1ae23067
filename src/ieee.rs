//! A mathematical model of the IEEE-754 encodings of binary32 and binary64.
use vstd::arithmetic::div_mod::{lemma_div_is_ordered, lemma_fundamental_div_mod, lemma_mod_bound};
use vstd::arithmetic::mul::{lemma_mul_inequality, lemma_mul_strict_inequality};
use vstd::arithmetic::power2::{lemma_pow2_pos, lemma_pow2_strictly_increases, lemma_pow2_unfold, pow2};
use vstd::prelude::*;

use core::cmp::Ordering;

verus! {

/// The sign bit of a binary64 pattern.
pub const SIGN64: u64 = 0x8000_0000_0000_0000;

/// The sign bit of a binary32 pattern.
pub const SIGN32: u32 = 0x8000_0000;

/// The magnitude bits (all but the sign) of a binary64 pattern.
pub const ABS64: u64 = 0x7FFF_FFFF_FFFF_FFFF;

/// The magnitude bits of binary64 infinity: an all-ones exponent, a zero fraction.
pub const INF64: u64 = 0x7FF0_0000_0000_0000;

/// Whether the sign bit of a binary64 pattern is set.
pub open spec fn is_negative64(b: u64) -> bool {
    b & SIGN64 != 0
}

/// The magnitude bits of a binary64 pattern.
pub open spec fn abs_bits64(b: u64) -> u64 {
    b & ABS64
}

/// Whether a binary64 pattern is a NaN: an all-ones exponent and a nonzero fraction.
pub open spec fn is_nan64(b: u64) -> bool {
    abs_bits64(b) > INF64
}

/// The number that a non-NaN binary64 pattern (52 fraction bits) encodes,
/// scaled as in `magnitude`; both zeros are 0.
pub open spec fn value64(b: u64) -> int {
    let m = magnitude(abs_bits64(b) as int, 52);
    if is_negative64(b) {
        -m
    } else {
        m
    }
}

/// The native `<` of two binary64 values: false when either is a NaN.
pub open spec fn native_lt64(a: u64, b: u64) -> bool {
    !is_nan64(a) && !is_nan64(b) && value64(a) < value64(b)
}

/// The native `<=` of two binary64 values: false when either is a NaN.
pub open spec fn native_le64(a: u64, b: u64) -> bool {
    !is_nan64(a) && !is_nan64(b) && value64(a) <= value64(b)
}

/// The order key of a binary64 pattern: the sign bit is set on a non-negative
/// pattern, and a negative pattern is complemented.
pub open spec fn key64(b: u64) -> u64 {
    if b & SIGN64 == 0 {
        b | SIGN64
    } else {
        !b
    }
}

/// The total order of two binary64 patterns: their keys compared.
pub open spec fn order64(a: u64, b: u64) -> Ordering {
    if key64(a) < key64(b) {
        Ordering::Less
    } else if key64(a) == key64(b) {
        Ordering::Equal
    } else {
        Ordering::Greater
    }
}

/// The magnitude bits (all but the sign) of a binary32 pattern.
pub const ABS32: u32 = 0x7FFF_FFFF;

/// The magnitude bits of binary32 infinity: an all-ones exponent, a zero fraction.
pub const INF32: u32 = 0x7F80_0000;

/// Whether the sign bit of a binary32 pattern is set.
pub open spec fn is_negative32(b: u32) -> bool {
    b & SIGN32 != 0
}

/// The magnitude bits of a binary32 pattern.
pub open spec fn abs_bits32(b: u32) -> u32 {
    b & ABS32
}

/// Whether a binary32 pattern is a NaN: an all-ones exponent and a nonzero fraction.
pub open spec fn is_nan32(b: u32) -> bool {
    abs_bits32(b) > INF32
}

/// The number that a non-NaN binary32 pattern (23 fraction bits) encodes,
/// scaled as in `magnitude`; both zeros are 0.
pub open spec fn value32(b: u32) -> int {
    let m = magnitude(abs_bits32(b) as int, 23);
    if is_negative32(b) {
        -m
    } else {
        m
    }
}

/// The native `<` of two binary32 values: false when either is a NaN.
pub open spec fn native_lt32(a: u32, b: u32) -> bool {
    !is_nan32(a) && !is_nan32(b) && value32(a) < value32(b)
}

/// The native `<=` of two binary32 values: false when either is a NaN.
pub open spec fn native_le32(a: u32, b: u32) -> bool {
    !is_nan32(a) && !is_nan32(b) && value32(a) <= value32(b)
}

/// The order key of a binary32 pattern.
pub open spec fn key32(b: u32) -> u32 {
    if b & SIGN32 == 0 {
        b | SIGN32
    } else {
        !b
    }
}

/// The total order of two binary32 patterns: their keys compared.
pub open spec fn order32(a: u32, b: u32) -> Ordering {
    if key32(a) < key32(b) {
        Ordering::Less
    } else if key32(a) == key32(b) {
        Ordering::Equal
    } else {
        Ordering::Greater
    }
}

/// The absolute value of the number that the unsigned magnitude bits `x`
/// encode (exponent field above `p` fraction bits), scaled by
/// `2^(bias + p - 1)` so that every value is an integer. A pattern with a zero
/// exponent is subnormal; the all-ones exponent with a zero fraction
/// (infinity) lands above every finite value.
pub open spec fn magnitude(x: int, p: nat) -> int {
    let e = x / (pow2(p) as int);
    let m = x % (pow2(p) as int);
    if e == 0 {
        m
    } else {
        (pow2(p) + m) * pow2((e - 1) as nat)
    }
}

/// All-zero magnitude bits encode zero.
pub proof fn lemma_magnitude_zero(p: nat)
    ensures
        magnitude(0, p) == 0,
{
    lemma_pow2_pos(p);
    lemma_fundamental_div_mod(0, pow2(p) as int);
    lemma_mod_bound(0, pow2(p) as int);
}

/// Larger magnitude bits encode a strictly larger magnitude.
pub proof fn lemma_magnitude_strictly_increases(x: int, y: int, p: nat)
    requires
        0 <= x < y,
    ensures
        0 <= magnitude(x, p) < magnitude(y, p),
{
    let pp = pow2(p) as int;
    lemma_pow2_pos(p);
    let e1 = x / pp;
    let m1 = x % pp;
    let e2 = y / pp;
    let m2 = y % pp;
    lemma_fundamental_div_mod(x, pp);
    lemma_fundamental_div_mod(y, pp);
    lemma_mod_bound(x, pp);
    lemma_mod_bound(y, pp);
    lemma_div_is_ordered(0, x, pp);
    lemma_div_is_ordered(x, y, pp);
    assert(0 <= e1 <= e2);
    if e1 > 0 {
        let k1 = pow2((e1 - 1) as nat) as int;
        lemma_pow2_pos((e1 - 1) as nat);
        lemma_mul_inequality(0, pp + m1, k1);
    }
    if e1 == e2 {
        assert(m1 < m2) by (nonlinear_arith)
            requires
                x == pp * e1 + m1,
                y == pp * e2 + m2,
                e1 == e2,
                x < y,
        ;
        if e1 > 0 {
            let k = pow2((e1 - 1) as nat) as int;
            lemma_pow2_pos((e1 - 1) as nat);
            lemma_mul_strict_inequality(pp + m1, pp + m2, k);
        }
    } else {
        let k2 = pow2((e2 - 1) as nat) as int;
        lemma_pow2_pos((e2 - 1) as nat);
        lemma_mul_inequality(pp, pp + m2, k2);
        if e1 == 0 {
            lemma_mul_inequality(1, k2, pp);
            assert(1 * pp <= k2 * pp ==> pp <= pp * k2) by (nonlinear_arith);
        } else {
            let k1 = pow2((e1 - 1) as nat) as int;
            lemma_pow2_pos((e1 - 1) as nat);
            lemma_pow2_unfold(e1 as nat);
            if e1 < e2 - 1 {
                lemma_pow2_strictly_increases(e1 as nat, (e2 - 1) as nat);
            }
            assert(pow2(e1 as nat) <= k2);
            lemma_mul_strict_inequality(pp + m1, 2 * pp, k1);
            assert((2 * pp) * k1 == pp * (2 * k1)) by (nonlinear_arith);
            lemma_mul_inequality(2 * k1, k2, pp);
            assert((2 * k1) * pp == pp * (2 * k1) && k2 * pp == pp * k2) by (nonlinear_arith);
        }
    }
}

} // verus!
