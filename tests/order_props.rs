use std::cmp::Ordering;
use std::collections::hash_map::DefaultHasher;
use std::hash::{Hash, Hasher};

use float_ord::{sort, sort32, FloatOrd};

fn w64(x: f64) -> FloatOrd<u64> {
    FloatOrd(x.to_bits())
}

fn w32(x: f32) -> FloatOrd<u32> {
    FloatOrd(x.to_bits())
}

fn h<F: Hash>(f: F) -> u64 {
    let mut hasher = DefaultHasher::new();
    f.hash(&mut hasher);
    hasher.finish()
}

#[test]
fn keys_of_known_patterns() {
    assert_eq!(w64(0.0).convert(), 0x8000_0000_0000_0000);
    assert_eq!(w64(-0.0).convert(), 0x7FFF_FFFF_FFFF_FFFF);
    assert_eq!(w64(1.0).convert(), 0xBFF0_0000_0000_0000);
    assert_eq!(w64(-1.0).convert(), 0x400F_FFFF_FFFF_FFFF);
    assert_eq!(w32(0.0).convert(), 0x8000_0000);
    assert_eq!(w32(-0.0).convert(), 0x7FFF_FFFF);
    assert_eq!(w32(1.0).convert(), 0xBF80_0000);
    assert_eq!(w32(-1.0).convert(), 0x407F_FFFF);
}

#[test]
fn every_pair_is_ordered_one_way() {
    let xs = [
        -f64::NAN,
        -f64::INFINITY,
        -2.5,
        -f64::MIN_POSITIVE,
        -0.0,
        0.0,
        5e-324,
        1.0,
        f64::MAX,
        f64::INFINITY,
        f64::NAN,
    ];
    for (i, a) in xs.iter().enumerate() {
        for (j, b) in xs.iter().enumerate() {
            let expected = i.cmp(&j);
            assert_eq!(w64(*a).cmp(&w64(*b)), expected);
            assert_eq!(w64(*a).partial_cmp(&w64(*b)), Some(expected));
            assert_eq!(w64(*a) == w64(*b), i == j);
        }
    }
}

#[test]
fn native_order_agrees_on_numbers() {
    let xs = [-1e300f64, -3.0, -1e-310, 0.0, 1e-310, 2.0, 7.5, 1e300];
    for a in xs.iter() {
        for b in xs.iter() {
            assert_eq!(a < b, w64(*a) < w64(*b));
            assert_eq!(a <= b, w64(*a) <= w64(*b));
        }
    }
    let ys = [-1e30f32, -3.0, -1e-40, 0.0, 1e-40, 2.0, 7.5, 1e30];
    for a in ys.iter() {
        for b in ys.iter() {
            assert_eq!(a < b, w32(*a) < w32(*b));
        }
    }
}

#[test]
fn signed_zeros_are_distinct() {
    assert_eq!(w64(-0.0).cmp(&w64(0.0)), Ordering::Less);
    assert!(w64(-0.0) != w64(0.0));
    assert_eq!(w32(-0.0).cmp(&w32(0.0)), Ordering::Less);
    assert!(w32(-0.0) != w32(0.0));
}

#[test]
fn nans_sit_at_the_ends() {
    let neg_nan = (-f64::NAN).to_bits() | 1;
    let pos_nan = f64::NAN.to_bits() | 1;
    for v in [-f64::INFINITY, -1.0, -0.0, 0.0, 1.0, f64::INFINITY] {
        assert!(FloatOrd(neg_nan) < w64(v));
        assert!(w64(v) < FloatOrd(pos_nan));
    }
    assert!(FloatOrd(neg_nan) < FloatOrd(pos_nan));
    let neg_nan32 = (-f32::NAN).to_bits() | 1;
    let pos_nan32 = f32::NAN.to_bits() | 1;
    for v in [-f32::INFINITY, -1.0, -0.0, 0.0, 1.0, f32::INFINITY] {
        assert!(FloatOrd(neg_nan32) < w32(v));
        assert!(w32(v) < FloatOrd(pos_nan32));
    }
}

#[test]
fn nan_payloads_are_told_apart() {
    let a = f64::NAN.to_bits();
    let b = a | 1;
    assert!(FloatOrd(a) == FloatOrd(a));
    assert!(FloatOrd(a) != FloatOrd(b));
    assert!(FloatOrd(a) < FloatOrd(b));
}

#[test]
fn defaults_wrap_positive_zero() {
    let d64: FloatOrd<u64> = Default::default();
    let d32: FloatOrd<u32> = Default::default();
    assert_eq!(d64.0, 0.0f64.to_bits());
    assert_eq!(d32.0, 0.0f32.to_bits());
}

#[test]
fn sort_example_sequence() {
    let nan = f64::NAN;
    let input = [-1.0, 5.0, 0.0, -0.0, nan, 1.5, nan, 3.7];
    let mut bits: Vec<u64> = input.iter().map(|x| x.to_bits()).collect();
    sort(&mut bits);
    let expected: Vec<u64> = [-1.0, -0.0, 0.0, 1.5, 3.7, 5.0, nan, nan]
        .iter()
        .map(|x: &f64| x.to_bits())
        .collect();
    assert_eq!(bits, expected);
}

#[test]
fn sort_is_idempotent_and_keeps_short_inputs() {
    let mut empty: Vec<u64> = Vec::new();
    sort(&mut empty);
    assert!(empty.is_empty());
    let mut one = vec![2.5f64.to_bits()];
    sort(&mut one);
    assert_eq!(one, vec![2.5f64.to_bits()]);

    let mut v: Vec<u64> = [3.0, -f64::INFINITY, -0.0, 3.0, f64::NAN, 0.0, -7.0]
        .iter()
        .map(|x: &f64| x.to_bits())
        .collect();
    sort(&mut v);
    let once = v.clone();
    sort(&mut v);
    assert_eq!(v, once);
    assert!(v.windows(2).all(|p| FloatOrd(p[0]) <= FloatOrd(p[1])));
}

#[test]
fn sort32_orders_binary32() {
    let mut v: Vec<u32> = [f32::NAN, 2.0, -0.0, -f32::INFINITY, 0.0, -2.0]
        .iter()
        .map(|x: &f32| x.to_bits())
        .collect();
    sort32(&mut v);
    let expected: Vec<u32> = [-f32::INFINITY, -2.0, -0.0, 0.0, 2.0, f32::NAN]
        .iter()
        .map(|x: &f32| x.to_bits())
        .collect();
    assert_eq!(v, expected);
}

#[test]
fn examples_of_strict_order() {
    assert!(w64(1.0) < w64(2.0));
    assert!(w64(-0.0) < w64(0.0));
    assert!(w64(-f64::INFINITY) < w64(f64::INFINITY));
}

#[test]
fn hash_is_the_hash_of_the_key() {
    assert_eq!(h(w64(-2.5)), h(w64(-2.5).convert()));
    assert_eq!(h(w32(7.0)), h(w32(7.0).convert()));
    assert_ne!(h(w64(-2.5)), h((-2.5f64).to_bits()));
}
