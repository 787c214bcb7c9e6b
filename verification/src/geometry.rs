//! Lengths, points and the few layout values that the scroll view decides on.
//!
//! A length is an integer number of sub-pixel steps, `SUBPIXELS` of them to a
//! logical pixel, so that sums, differences and comparisons are exact.
use vstd::prelude::*;

verus! {

/// Sub-pixel steps in one logical pixel.
///
/// The step is a 2^-24 part of a pixel: a single-precision length of half a
/// pixel or more is a whole number of steps.
pub const SUBPIXELS: i64 = 16_777_216;

/// Axis of a scrollbar.
#[derive(Clone, Copy, Debug, PartialEq, Eq, Structural)]
pub enum Axis {
    X,
    Y,
}

/// Axis along which items flow and scroll.
#[derive(Clone, Copy, Debug, PartialEq, Eq, Structural)]
pub enum Direction {
    Vertical,
    Horizontal,
}

/// Extent of an element along one axis, as the layout engine is told of it.
#[derive(Clone, Copy, Debug, PartialEq, Eq, Structural)]
pub enum Size {
    /// As large as the content.
    Inner,
    /// All the available space.
    Fill,
    /// A fixed length, in sub-pixel steps.
    Pixels(i64),
    /// A size of the layout engine's own, by the number it is kept under.
    Custom(u64),
}

/// A position of the pointer, or of the content, in sub-pixel steps.
#[derive(Clone, Copy, Debug, PartialEq, Eq, Structural)]
pub struct CursorPoint {
    pub x: i64,
    pub y: i64,
}

/// The quotient `a / b`, rounded towards zero (`b` positive).
pub open spec fn trunc_div(a: int, b: int) -> int {
    if a >= 0 {
        a / b
    } else {
        -((-a) / b)
    }
}

/// The quotient `a / b`, rounded towards negative infinity (`b` not zero).
pub open spec fn floor_div(a: int, b: int) -> int {
    if b > 0 {
        a / b
    } else {
        (-a) / (-b)
    }
}

/// `v`, or the nearer bound where it lies outside `lo..=hi`.
pub open spec fn clamped(v: int, lo: int, hi: int) -> int {
    if v < lo {
        lo
    } else if v > hi {
        hi
    } else {
        v
    }
}

/// Distance of `v` from zero.
pub open spec fn magnitude(v: int) -> int {
    if v < 0 {
        -v
    } else {
        v
    }
}

/// The whole pixels in a length, fractions dropped, held in the range of `i32`.
pub open spec fn whole_pixels(v: int) -> int {
    clamped(trunc_div(v, SUBPIXELS as int), i32::MIN as int, i32::MAX as int)
}

/// The length of `pixels` logical pixels.
pub fn px(pixels: i32) -> (length: i64)
    ensures
        length == pixels * SUBPIXELS,
{
    pixels as i64 * SUBPIXELS
}

/// The whole pixels in `length`: the fraction is dropped and a value that
/// `i32` cannot hold becomes the nearest one that it can.
pub fn to_pixels(length: i128) -> (pixels: i32)
    ensures
        pixels == whole_pixels(length as int),
{
    let whole: i128 = length / (SUBPIXELS as i128);
    if whole < i32::MIN as i128 {
        i32::MIN
    } else if whole > i32::MAX as i128 {
        i32::MAX
    } else {
        whole as i32
    }
}

/// A length of whole pixels is read back as it was written.
pub proof fn law_pixels_round_trip(pixels: i32)
    ensures
        whole_pixels(pixels * SUBPIXELS) == pixels,
{
    let s = SUBPIXELS as int;
    assert(trunc_div(pixels * s, s) == pixels);
}

/// Dropping the fraction moves a length by less than a pixel, towards zero.
pub proof fn lemma_trunc_div_error(v: int, b: int)
    requires
        b > 0,
    ensures
        magnitude(v - trunc_div(v, b) * b) < b,
        v % b == 0 ==> trunc_div(v, b) * b == v,
        magnitude(trunc_div(v, b)) * b <= magnitude(v),
        v >= 0 ==> trunc_div(v, b) >= 0,
        v <= 0 ==> trunc_div(v, b) <= 0,
{
    let m = magnitude(v);
    vstd::arithmetic::div_mod::lemma_fundamental_div_mod(m, b);
    vstd::arithmetic::div_mod::lemma_div_pos_is_pos(m, b);
    assert(b * (m / b) == (m / b) * b) by (nonlinear_arith);
    if v < 0 {
        assert((-(m / b)) * b == -((m / b) * b)) by (nonlinear_arith);
        if v % b == 0 {
            vstd::arithmetic::div_mod::lemma_fundamental_div_mod(v, b);
            assert(m == b * (-(v / b))) by (nonlinear_arith)
                requires
                    v == b * (v / b),
                    m == -v,
            ;
            vstd::arithmetic::div_mod::lemma_mod_multiples_basic(-(v / b), b);
            assert(b * (-(v / b)) == (-(v / b)) * b) by (nonlinear_arith);
        }
    }
}

/// A quotient rounded towards zero is the last multiple of the divisor on the
/// way from zero to the dividend.
pub proof fn law_quotient_drops_its_fraction(a: int, b: int)
    requires
        b > 0,
    ensures
        a >= 0 ==> trunc_div(a, b) >= 0 && trunc_div(a, b) * b <= a < trunc_div(a, b) * b + b,
        a <= 0 ==> trunc_div(a, b) <= 0 && trunc_div(a, b) * b - b < a <= trunc_div(a, b) * b,
{
    lemma_trunc_div_error(a, b);
    let q = trunc_div(a, b);
    if a <= 0 {
        assert((-q) * b == -(q * b)) by (nonlinear_arith);
    }
}

/// A value held between two bounds is one of the three, lies between the
/// bounds, and is the value itself where that does.
pub proof fn law_clamped_stays_in_bounds(v: int, lo: int, hi: int)
    requires
        lo <= hi,
    ensures
        lo <= clamped(v, lo, hi) <= hi,
        lo <= v <= hi ==> clamped(v, lo, hi) == v,
        v <= lo ==> clamped(v, lo, hi) == lo,
        v >= hi ==> clamped(v, lo, hi) == hi,
{
}

/// A distance from zero is not negative, and is the value or its opposite.
pub proof fn law_magnitude_is_distance(v: int)
    ensures
        magnitude(v) >= 0,
        magnitude(v) == v || magnitude(v) == -v,
{
}

/// The whole pixels in a length reach from zero to within a pixel of it, and
/// never past it; a length that `i32` cannot count is counted as far as it can.
pub proof fn law_whole_pixels_reach_the_length(v: int)
    ensures
        0 <= v < 2_147_483_648 * 16_777_216 ==> whole_pixels(v) >= 0 && whole_pixels(v)
            * 16_777_216 <= v < whole_pixels(v) * 16_777_216 + 16_777_216,
        -2_147_483_649 * 16_777_216 < v <= 0 ==> whole_pixels(v) <= 0 && whole_pixels(v)
            * 16_777_216 - 16_777_216 < v <= whole_pixels(v) * 16_777_216,
        v >= 2_147_483_648 * 16_777_216 ==> whole_pixels(v) == 2_147_483_647,
        v <= -2_147_483_649 * 16_777_216 ==> whole_pixels(v) == -2_147_483_648,
{
    law_quotient_drops_its_fraction(v, 16_777_216);
}

} // verus!
