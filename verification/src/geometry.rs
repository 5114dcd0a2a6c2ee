//! Plain geometry values in physical pixels, and the two arithmetic
//! primitives every placement is built from: halving toward zero and
//! clamping into a closed interval.

use vstd::prelude::*;

verus! {

/// A coordinate in physical pixels.
#[derive(Clone, Copy, Debug, PartialEq, Eq, Structural)]
pub struct Point {
    pub x: i32,
    pub y: i32,
}

/// An extent in physical pixels.
#[derive(Clone, Copy, Debug, PartialEq, Eq, Structural)]
pub struct Size {
    pub width: u32,
    pub height: u32,
}

/// Half of `value`, rounded toward zero.
pub open spec fn half_toward_zero(value: int) -> int {
    if value >= 0 {
        value / 2
    } else {
        -((-value) / 2)
    }
}

/// `value` constrained to `[min, max]`. An empty interval (`max < min`)
/// collapses to `min`.
pub open spec fn clamp_to(value: int, min: int, max: int) -> int {
    if max < min {
        min
    } else if value < min {
        min
    } else if value > max {
        max
    } else {
        value
    }
}

/// Halves `value`, rounding toward zero.
pub fn halve(value: i64) -> (half: i64)
    ensures
        half == half_toward_zero(value as int),
{
    value / 2
}

/// Constrains `value` to `[min, max]`, returning `min` when the interval is
/// empty.
pub fn clamp(value: i64, min: i64, max: i64) -> (clamped: i64)
    ensures
        clamped == clamp_to(value as int, min as int, max as int),
{
    if max < min || value < min {
        min
    } else if value > max {
        max
    } else {
        value
    }
}

} // verus!
