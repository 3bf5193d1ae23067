//! A total order, a total equality and a stable hash for IEEE-754 binary32 and
//! binary64 values, which natively are only partially ordered.
//!
//! A value is held as its raw bit pattern (`u32` or `u64`). The order is
//!
//!    -NaN | -Infinity | x < 0 | -0 | +0 | x > 0 | +Infinity | +NaN
//!
//! and is obtained by mapping each bit pattern to an unsigned key of the same
//! width whose natural order is the order above.
use vstd::prelude::*;

pub mod ieee;
pub mod ord;
pub mod order;
pub mod sort;

pub use ord::FloatOrd;
pub use sort::{sort, sort32};
