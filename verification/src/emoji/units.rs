use vstd::prelude::*;

verus! {

/// Fixed-point resolution of every length, offset and font size: units per
/// pixel. All measures in this library are whole numbers of ten-thousandths
/// of a pixel, so that every search step is exact.
pub const UNIT: u64 = 10_000;

/// The horizontal scale 1.0 (no compression). Scales are whole numbers of
/// ten-thousandths, the step by which compression lowers them.
pub const SCALE_ONE: u32 = 10_000;

/// Step of the font-size search: half a pixel.
pub const SIZE_STEP: u64 = 5_000;

/// Largest width or height a box can have: `u32::MAX` pixels.
pub const LENGTH_MAX: u64 = 42_949_672_950_000;

/// Whole pixels as a fixed-point length.
pub fn units_from_pixels(pixels: u32) -> (units: u64)
    ensures
        units == pixels * UNIT,
        units <= LENGTH_MAX,
{
    (pixels as u64) * UNIT
}

/// The whole pixels contained in a fixed-point length, rounding down.
pub fn pixels_from_units(units: u64) -> (pixels: u64)
    ensures
        pixels == units / UNIT,
{
    units / UNIT
}

} // verus!
