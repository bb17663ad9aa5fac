//! Fixed-point conventions shared by the whole crate.

use vstd::prelude::*;

verus! {

/// Fixed-point steps per world unit: a length `v` stands for `v / ONE` world
/// units. Colour channels and blade scales use the same step.
pub const ONE: u32 = 1000;

/// Cells along each axis of the placement grid that covers one ground region.
pub const GRID_RESOLUTION: u32 = 512;

} // verus!
