//! The fixed-point scale, and arithmetic that saturates instead of
//! overflowing.

use vstd::prelude::*;

verus! {

/// Length units in one pixel. Also the scale of a heading's components.
pub const UNIT: i64 = 1_000_000;

/// `v` brought into the range of `i64`: values beyond an end become that end.
pub open spec fn saturated(v: int) -> int {
    if v < i64::MIN {
        i64::MIN as int
    } else if v > i64::MAX {
        i64::MAX as int
    } else {
        v
    }
}

/// `v` brought into `[lo, hi]`. Where the interval is empty (`lo > hi`) the
/// lower bound wins, so the result is never below `lo`.
pub open spec fn clamped(v: int, lo: int, hi: int) -> int {
    let capped = if v < hi { v } else { hi };
    if capped < lo { lo } else { capped }
}

/// `v` with its sign flipped, saturated (only `i64::MIN` has no exact
/// negation).
pub open spec fn reflected(v: int) -> int {
    saturated(-v)
}

/// The coordinate reached from `pos` after moving `amount` times `rate`,
/// saturated.
pub open spec fn displaced(pos: int, rate: int, amount: int) -> int {
    saturated(pos + rate * amount)
}

/// `a / b` rounded toward zero, for a positive divisor.
pub open spec fn quotient_toward_zero(a: int, b: int) -> int
    recommends b > 0,
{
    if a >= 0 { a / b } else { -((-a) / b) }
}

/// Narrows a wide intermediate result to `i64`, saturating.
pub fn saturate(v: i128) -> (r: i64)
    ensures
        r == saturated(v as int),
{
    if v < i64::MIN as i128 {
        i64::MIN
    } else if v > i64::MAX as i128 {
        i64::MAX
    } else {
        v as i64
    }
}

/// Clamps a wide intermediate result into `[lo, hi]`; see [`clamped`].
pub fn clamp(v: i128, lo: i64, hi: i64) -> (r: i64)
    ensures
        r == clamped(v as int, lo as int, hi as int),
        r >= lo,
        lo <= hi ==> r <= hi,
{
    let capped: i128 = if v < hi as i128 { v } else { hi as i128 };
    if capped < lo as i128 { lo } else { capped as i64 }
}

/// Flips the sign of a velocity component.
pub fn reflect(v: i64) -> (r: i64)
    ensures
        r == reflected(v as int),
        v > 0 ==> r < 0,
        v < 0 ==> r > 0,
        v == 0 ==> r == 0,
{
    if v == i64::MIN { i64::MAX } else { -v }
}

/// Moves a coordinate by `rate * amount`, saturating at the ends of `i64`.
pub fn displace(pos: i64, rate: i64, amount: u64) -> (r: i64)
    ensures
        r == displaced(pos as int, rate as int, amount as int),
{
    assert(-0x8000_0000_0000_0000 * 0xffff_ffff_ffff_ffff <= rate * amount
        <= 0x7fff_ffff_ffff_ffff * 0xffff_ffff_ffff_ffff) by (nonlinear_arith)
        requires
            -0x8000_0000_0000_0000 <= rate <= 0x7fff_ffff_ffff_ffff,
            0 <= amount <= 0xffff_ffff_ffff_ffff,
    ;
    let step: i128 = (rate as i128) * (amount as i128);
    saturate(pos as i128 + step)
}

} // verus!
