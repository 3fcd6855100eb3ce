//! Bounded integer arithmetic shared by the cursor and motion code.

use vstd::prelude::*;

verus! {

/// The value of `v` moved into the closed range from `lo` to `hi`.
pub open spec fn clamp(v: int, lo: int, hi: int) -> int {
    if v < lo {
        lo
    } else if v > hi {
        hi
    } else {
        v
    }
}

/// The integer `v` moved into the range of an `i32`.
pub open spec fn saturated(v: int) -> int {
    clamp(v, i32::MIN as int, i32::MAX as int)
}

/// The absolute value of an integer.
pub open spec fn magnitude(v: int) -> int {
    if v < 0 {
        -v
    } else {
        v
    }
}

/// How far `now` lies past `then`; zero when it does not.
pub open spec fn elapsed(now: u64, then: u64) -> int {
    if now >= then {
        now - then
    } else {
        0
    }
}

/// Half of an integer, rounded toward zero.
pub open spec fn half(v: int) -> int {
    if v < 0 {
        -((-v) / 2)
    } else {
        v / 2
    }
}

/// Moves `v` into the closed range from `lo` to `hi`.
pub fn clamp_i32(v: i32, lo: i32, hi: i32) -> (r: i32)
    requires
        lo <= hi,
    ensures
        r == clamp(v as int, lo as int, hi as int),
{
    if v < lo {
        lo
    } else if v > hi {
        hi
    } else {
        v
    }
}

/// Adds two values and stops at the limits of the type.
pub fn saturating_add_i32(a: i32, b: i32) -> (r: i32)
    ensures
        r == saturated(a + b),
{
    let sum: i64 = a as i64 + b as i64;
    if sum < i32::MIN as i64 {
        i32::MIN
    } else if sum > i32::MAX as i64 {
        i32::MAX
    } else {
        sum as i32
    }
}

/// Subtracts `b` from `a` and stops at the limits of the type.
pub fn saturating_sub_i32(a: i32, b: i32) -> (r: i32)
    ensures
        r == saturated(a - b),
{
    let diff: i64 = a as i64 - b as i64;
    if diff < i32::MIN as i64 {
        i32::MIN
    } else if diff > i32::MAX as i64 {
        i32::MAX
    } else {
        diff as i32
    }
}

/// The absolute value, in a type that can hold it for every argument.
pub fn magnitude_i64(v: i64) -> (r: i64)
    requires
        v > i64::MIN,
    ensures
        r == magnitude(v as int),
{
    if v < 0 {
        -v
    } else {
        v
    }
}

/// Half of `v`, rounded toward zero.
pub fn half_i32(v: i32) -> (r: i32)
    ensures
        r == half(v as int),
{
    if v >= 0 {
        v / 2
    } else if v == i32::MIN {
        -0x4000_0000
    } else {
        -((-v) / 2)
    }
}

/// The larger of two values.
pub fn max_i32(a: i32, b: i32) -> (r: i32)
    ensures
        r == if a >= b { a } else { b },
{
    if a >= b {
        a
    } else {
        b
    }
}

} // verus!
