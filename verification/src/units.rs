//! Units of measurement and clamped integer arithmetic.
//!
//! * Time is counted in milliseconds.
//! * Velocities are in thousandths of a pixel per second.
//! * Positions are in millionths of a pixel, so that a velocity times an
//!   elapsed time is a distance with nothing to round.
//! * Sizes of sprites and of the viewport are whole pixels.

use vstd::prelude::*;

verus! {

/// Position units in one pixel.
pub const MICROS_PER_PIXEL: i64 = 1_000_000;

/// Velocity units in one pixel per second.
pub const MILLIS_PER_PIXEL: i64 = 1_000;

/// The value of `i64` closest to `v`.
pub open spec fn clamp_i64(v: int) -> i64 {
    if v < i64::MIN {
        i64::MIN
    } else if v > i64::MAX {
        i64::MAX
    } else {
        v as i64
    }
}

/// The value of `u64` closest to `v`.
pub open spec fn clamp_u64(v: int) -> u64 {
    if v < 0 {
        0
    } else if v > u64::MAX {
        u64::MAX
    } else {
        v as u64
    }
}

/// A length of `pixels` whole pixels, in position units.
pub open spec fn px(pixels: u32) -> int {
    pixels * MICROS_PER_PIXEL
}

/// Clamps a wide intermediate result into `i64`.
pub fn saturate(v: i128) -> (r: i64)
    ensures
        r == clamp_i64(v as int),
{
    if v < i64::MIN as i128 {
        i64::MIN
    } else if v > i64::MAX as i128 {
        i64::MAX
    } else {
        v as i64
    }
}

/// Converts whole pixels to position units.
pub fn pixels(count: u32) -> (r: i64)
    ensures
        r == px(count),
        0 <= r <= u32::MAX * MICROS_PER_PIXEL,
{
    count as i64 * MICROS_PER_PIXEL
}

/// The product of two `i64` values, which always fits in an `i128`.
pub fn wide_product(a: i64, b: i64) -> (r: i128)
    ensures
        r == a * b,
        -0x4000_0000_0000_0000_0000_0000_0000_0000 <= r
            <= 0x4000_0000_0000_0000_0000_0000_0000_0000,
{
    proof {
        lemma_product_bound(a as int, b as int);
    }
    a as i128 * b as i128
}

/// Two factors of magnitude at most 2^63 have a product of magnitude at most 2^126.
pub proof fn lemma_product_bound(a: int, b: int)
    requires
        -0x8000_0000_0000_0000 <= a <= 0x8000_0000_0000_0000,
        -0x8000_0000_0000_0000 <= b <= 0x8000_0000_0000_0000,
    ensures
        -0x4000_0000_0000_0000_0000_0000_0000_0000 <= a * b
            <= 0x4000_0000_0000_0000_0000_0000_0000_0000,
{
    assert(-0x4000_0000_0000_0000_0000_0000_0000_0000 <= a * b
        <= 0x4000_0000_0000_0000_0000_0000_0000_0000) by (nonlinear_arith)
        requires
            -0x8000_0000_0000_0000 <= a <= 0x8000_0000_0000_0000,
            -0x8000_0000_0000_0000 <= b <= 0x8000_0000_0000_0000,
    ;
}

} // verus!
