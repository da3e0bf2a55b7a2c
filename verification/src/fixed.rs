//! Fixed-point lengths: six decimal places in an `i64`.

use vstd::prelude::*;

verus! {

/// The integer that stands for `1.0`.
pub const UNIT: i64 = 1_000_000;

/// Half of a length, rounded toward zero, so that a negative length has the
/// negated half of its magnitude.
pub open spec fn half(w: int) -> int {
    if w >= 0 {
        w / 2
    } else {
        -((-w) / 2)
    }
}

/// The larger of two lengths.
pub open spec fn larger(a: int, b: int) -> int {
    if a >= b {
        a
    } else {
        b
    }
}

/// Computes [`half`].
pub fn half_of(w: i64) -> (h: i64)
    ensures
        h == half(w as int),
{
    w / 2
}

/// Computes [`larger`].
pub fn larger_of(a: i64, b: i64) -> (m: i64)
    ensures
        m == larger(a as int, b as int),
{
    if a >= b {
        a
    } else {
        b
    }
}

} // verus!
