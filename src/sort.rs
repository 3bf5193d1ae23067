//! Sorting bit patterns in place by the total order.
use vstd::prelude::*;

use crate::ieee::{key32, key64};
use crate::ord::FloatOrd;
use crate::order::{lemma_eq_is_identity32, lemma_eq_is_identity64};
use vstd::relations::{sorted_by, total_ordering};
use vstd::seq_lib::lemma_sorted_unique;

verus! {

/// Relies on pdqsort::sort_by_key: it rearranges the slice in place so that
/// the keys, compared with `u64`'s `Ord`, are non-decreasing.
#[verifier::external_body]
fn pdqsort_by_key64(v: &mut [u64])
    ensures
        final(v)@.to_multiset() == old(v)@.to_multiset(),
        in_order64(final(v)@),
{
    pdqsort::sort_by_key(v, |x: &u64| FloatOrd(*x).convert());
}

/// Relies on pdqsort::sort_by_key: it rearranges the slice in place so that
/// the keys, compared with `u32`'s `Ord`, are non-decreasing.
#[verifier::external_body]
fn pdqsort_by_key32(v: &mut [u32])
    ensures
        final(v)@.to_multiset() == old(v)@.to_multiset(),
        in_order32(final(v)@),
{
    pdqsort::sort_by_key(v, |x: &u32| FloatOrd(*x).convert());
}

/// Sorts binary64 bit patterns in place into the total order, without
/// allocating.
pub fn sort(v: &mut [u64])
    ensures
        final(v)@.to_multiset() == old(v)@.to_multiset(),
        in_order64(final(v)@),
{
    pdqsort_by_key64(v);
}

/// Sorts binary32 bit patterns in place into the total order, without
/// allocating.
pub fn sort32(v: &mut [u32])
    ensures
        final(v)@.to_multiset() == old(v)@.to_multiset(),
        in_order32(final(v)@),
{
    pdqsort_by_key32(v);
}

/// Whether a sequence of binary64 patterns is in the total order.
pub open spec fn in_order64(s: Seq<u64>) -> bool {
    forall|i: int, j: int| 0 <= i <= j < s.len() ==> key64(s[i]) <= key64(s[j])
}

/// The total order of binary64 patterns as a relation.
pub open spec fn precedes64(a: u64, b: u64) -> bool {
    key64(a) <= key64(b)
}

/// Two sequences of binary64 patterns that are in the total order and hold the
/// same patterns are equal: what `sort` leaves is determined by what it was
/// given, so sorting twice sorts once, and an ordered input is left as it is.
pub proof fn lemma_sorted_unique64(x: Seq<u64>, y: Seq<u64>)
    requires
        in_order64(x),
        in_order64(y),
        x.to_multiset() == y.to_multiset(),
    ensures
        x == y,
{
    let leq = |a: u64, b: u64| precedes64(a, b);
    assert forall|a: u64, b: u64| #[trigger] leq(a, b) && #[trigger] leq(b, a) implies a == b by {
        lemma_eq_is_identity64(FloatOrd(a), FloatOrd(b));
    }
    assert(total_ordering(leq));
    assert(sorted_by(x, leq));
    assert(sorted_by(y, leq));
    lemma_sorted_unique(x, y, leq);
    assert(x =~= y);
}

/// Whether a sequence of binary32 patterns is in the total order.
pub open spec fn in_order32(s: Seq<u32>) -> bool {
    forall|i: int, j: int| 0 <= i <= j < s.len() ==> key32(s[i]) <= key32(s[j])
}

/// The total order of binary32 patterns as a relation.
pub open spec fn precedes32(a: u32, b: u32) -> bool {
    key32(a) <= key32(b)
}

/// Two sequences of binary32 patterns that are in the total order and hold the
/// same patterns are equal: what `sort32` leaves is determined by what it was
/// given, so sorting twice sorts once, and an ordered input is left as it is.
pub proof fn lemma_sorted_unique32(x: Seq<u32>, y: Seq<u32>)
    requires
        in_order32(x),
        in_order32(y),
        x.to_multiset() == y.to_multiset(),
    ensures
        x == y,
{
    let leq = |a: u32, b: u32| precedes32(a, b);
    assert forall|a: u32, b: u32| #[trigger] leq(a, b) && #[trigger] leq(b, a) implies a == b by {
        lemma_eq_is_identity32(FloatOrd(a), FloatOrd(b));
    }
    assert(total_ordering(leq));
    assert(sorted_by(x, leq));
    assert(sorted_by(y, leq));
    lemma_sorted_unique(x, y, leq);
    assert(x =~= y);
}

} // verus!
