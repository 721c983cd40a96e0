//! Page sizer: converts pixel dimensions into physical page dimensions at a
//! fixed assumed resolution of 300 pixels per inch.
//!
//! Physical sizes are exact rationals, `px / 300 * 25.4` millimetres, and a
//! millimetre does not divide them evenly. They are therefore held as exact
//! integers in units of `1/1500` millimetre: one pixel is `127` such units,
//! since `1500 * 25.4 / 300 == 127`.
use vstd::prelude::*;

verus! {

/// The fixed assumed resolution, in pixels per inch.
pub const DPI: u64 = 300;

/// One inch, in tenths of a millimetre (25.4 mm).
pub const MM_PER_INCH_TENTHS: u64 = 254;

/// The denominator of the physical unit: sizes are held in 1/1500 mm.
pub const MM_SCALE: u64 = 1500;

/// One pixel at 300 DPI, in 1/1500 mm units.
pub const PX_TO_MM_SCALED: u64 = 127;

/// The largest pixel dimension whose physical size still fits in a `u64`.
pub const MAX_PX: u64 = u64::MAX / PX_TO_MM_SCALED;

/// A physical page size; each side is held in 1/1500 mm units, so
/// `width_mm_scaled / 1500` is the width in millimetres.
#[derive(Clone, Copy, Debug, PartialEq, Eq, Structural)]
pub struct PageSize {
    pub width_mm_scaled: u64,
    pub height_mm_scaled: u64,
}

/// The physical size of `px` pixels at 300 DPI, in 1/1500 mm units.
pub open spec fn mm_scaled_of_px(px: nat) -> nat {
    px * (PX_TO_MM_SCALED as nat)
}

/// Page sizer: the physical page size for positive pixel dimensions.
/// No error path; the caller guards the dimensions.
pub fn compute_page_size(width_px: u64, height_px: u64) -> (r: PageSize)
    requires
        1 <= width_px <= MAX_PX,
        1 <= height_px <= MAX_PX,
    ensures
        r.width_mm_scaled == mm_scaled_of_px(width_px as nat),
        r.height_mm_scaled == mm_scaled_of_px(height_px as nat),
{
    PageSize {
        width_mm_scaled: width_px * PX_TO_MM_SCALED,
        height_mm_scaled: height_px * PX_TO_MM_SCALED,
    }
}

/// Law: the page sizer is scale-consistent with the fixed resolution
/// constant. In millimetres the statement is `size == px / 300 * 25.4`;
/// cleared of the denominators 1500 and 10 it reads as below, exactly.
pub proof fn lemma_page_size_exact(px: nat)
    ensures
        10 * (DPI as nat) * mm_scaled_of_px(px) == (MM_PER_INCH_TENTHS as nat) * (
        MM_SCALE as nat) * px,
{
    assert(10 * 300 * (px * 127) == 254 * 1500 * px) by (nonlinear_arith);
}

/// Law: doubling a pixel dimension exactly doubles the physical size.
pub proof fn lemma_page_size_doubles(px: nat)
    ensures
        mm_scaled_of_px(2 * px) == 2 * mm_scaled_of_px(px),
{
}

/// Law: the page sizer is monotonic in the pixel dimension.
pub proof fn lemma_page_size_monotonic(a: nat, b: nat)
    requires
        a <= b,
    ensures
        mm_scaled_of_px(a) <= mm_scaled_of_px(b),
{
}

} // verus!
