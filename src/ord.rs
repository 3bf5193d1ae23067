//! The wrapper that orders, compares and hashes floating-point bit patterns.
use vstd::prelude::*;

use core::cmp::Ordering;

use crate::ieee::{key32, key64, order32, order64, SIGN32, SIGN64};

verus! {

/// A floating-point value, held as its raw bit pattern (`u64` for binary64,
/// `u32` for binary32), with total equality, a total order and hashing.
///
/// Equality and order compare keys, and hashing feeds the key alone to the
/// hasher, so equal values hash alike. The key map is one-to-one, so two
/// values are equal exactly when their bit patterns are: the two zeros and
/// NaNs of differing payload are told apart.
#[derive(Clone, Copy, Debug)]
pub struct FloatOrd<T>(pub T);

impl FloatOrd<u64> {
    /// The order key of the wrapped binary64 pattern.
    pub fn convert(self) -> (r: u64)
        ensures
            r == key64(self.0),
    {
        let u = self.0;
        if u & SIGN64 == 0 {
            u | SIGN64
        } else {
            !u
        }
    }

    /// The total order of two wrapped binary64 patterns: their keys compared.
    pub fn cmp(&self, other: &Self) -> (r: Ordering)
        ensures
            r == order64(self.0, other.0),
    {
        let a = self.convert();
        let b = other.convert();
        if a < b {
            Ordering::Less
        } else if a == b {
            Ordering::Equal
        } else {
            Ordering::Greater
        }
    }
}

impl PartialEq for FloatOrd<u64> {
    /// Two values are equal when their keys are.
    fn eq(&self, other: &Self) -> (r: bool) {
        self.convert() == other.convert()
    }
}

impl vstd::std_specs::cmp::PartialEqSpecImpl for FloatOrd<u64> {
    open spec fn obeys_eq_spec() -> bool {
        true
    }

    open spec fn eq_spec(&self, other: &Self) -> bool {
        key64(self.0) == key64(other.0)
    }
}

impl Eq for FloatOrd<u64> {
}

impl PartialOrd for FloatOrd<u64> {
    /// Every two values are comparable: the result is never `None`.
    fn partial_cmp(&self, other: &Self) -> (r: Option<Ordering>) {
        Some(self.cmp(other))
    }
}

impl vstd::std_specs::cmp::PartialOrdSpecImpl for FloatOrd<u64> {
    open spec fn obeys_partial_cmp_spec() -> bool {
        true
    }

    open spec fn partial_cmp_spec(&self, other: &Self) -> Option<Ordering> {
        Some(order64(self.0, other.0))
    }
}

/// Relies on `u64`'s `Hash::hash`, which writes the integer into the hasher;
/// nothing is claimed of the hasher's state.
pub assume_specification<H: core::hash::Hasher>[ <u64 as core::hash::Hash>::hash::<H> ](
    v: &u64,
    state: &mut H,
);

/// Relies on `u32`'s `Hash::hash`, which writes the integer into the hasher;
/// nothing is claimed of the hasher's state.
pub assume_specification<H: core::hash::Hasher>[ <u32 as core::hash::Hash>::hash::<H> ](
    v: &u32,
    state: &mut H,
);

impl core::hash::Hash for FloatOrd<u64> {
    /// Feeds the key to the hasher.
    fn hash<H: core::hash::Hasher>(&self, state: &mut H) {
        self.convert().hash(state);
    }
}

impl Default for FloatOrd<u64> {
    /// The wrapped default value, `+0.0`, whose pattern is all zeros.
    fn default() -> (r: Self)
        ensures
            r.0 == 0,
    {
        FloatOrd(0)
    }
}

impl FloatOrd<u32> {
    /// The order key of the wrapped binary32 pattern.
    pub fn convert(self) -> (r: u32)
        ensures
            r == key32(self.0),
    {
        let u = self.0;
        if u & SIGN32 == 0 {
            u | SIGN32
        } else {
            !u
        }
    }

    /// The total order of two wrapped binary32 patterns: their keys compared.
    pub fn cmp(&self, other: &Self) -> (r: Ordering)
        ensures
            r == order32(self.0, other.0),
    {
        let a = self.convert();
        let b = other.convert();
        if a < b {
            Ordering::Less
        } else if a == b {
            Ordering::Equal
        } else {
            Ordering::Greater
        }
    }
}

impl PartialEq for FloatOrd<u32> {
    /// Two values are equal when their keys are.
    fn eq(&self, other: &Self) -> (r: bool) {
        self.convert() == other.convert()
    }
}

impl vstd::std_specs::cmp::PartialEqSpecImpl for FloatOrd<u32> {
    open spec fn obeys_eq_spec() -> bool {
        true
    }

    open spec fn eq_spec(&self, other: &Self) -> bool {
        key32(self.0) == key32(other.0)
    }
}

impl Eq for FloatOrd<u32> {
}

impl PartialOrd for FloatOrd<u32> {
    /// Every two values are comparable: the result is never `None`.
    fn partial_cmp(&self, other: &Self) -> (r: Option<Ordering>) {
        Some(self.cmp(other))
    }
}

impl vstd::std_specs::cmp::PartialOrdSpecImpl for FloatOrd<u32> {
    open spec fn obeys_partial_cmp_spec() -> bool {
        true
    }

    open spec fn partial_cmp_spec(&self, other: &Self) -> Option<Ordering> {
        Some(order32(self.0, other.0))
    }
}

impl core::hash::Hash for FloatOrd<u32> {
    /// Feeds the key to the hasher.
    fn hash<H: core::hash::Hasher>(&self, state: &mut H) {
        self.convert().hash(state);
    }
}

impl Default for FloatOrd<u32> {
    /// The wrapped default value, `+0.0`, whose pattern is all zeros.
    fn default() -> (r: Self)
        ensures
            r.0 == 0,
    {
        FloatOrd(0)
    }
}

} // verus!
