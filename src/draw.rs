//! Conversion from grid coordinates to pixel coordinates.
use vstd::prelude::*;

verus! {

/// Side of one grid cell, in pixels.
pub const BLOCK_SIZE: u32 = 25;

/// Pixel coordinate of a grid coordinate, clamped to the range of `u32`.
pub open spec fn pixel_of(game_coordinates: int) -> int {
    let p = game_coordinates * BLOCK_SIZE;
    if p < 0 {
        0
    } else if p > u32::MAX {
        u32::MAX as int
    } else {
        p
    }
}

/// Pixel coordinate of a grid coordinate, as an unsigned integer; negative
/// coordinates give 0 and coordinates too large for `u32` give `u32::MAX`.
pub fn to_coordinates_u32(game_coordinates: i32) -> (r: u32)
    ensures
        r == pixel_of(game_coordinates as int),
{
    let p: i64 = (game_coordinates as i64) * (BLOCK_SIZE as i64);
    if p < 0 {
        0
    } else if p > u32::MAX as i64 {
        u32::MAX
    } else {
        p as u32
    }
}

} // verus!
