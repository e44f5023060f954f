//! Fixed configuration of the graph.

use vstd::prelude::*;

verus! {

/// Number of cells along each side of the graph's grid.
pub const GRID_SIZE: usize = 100;

/// Largest resolution whose vertices can all be named by a 16-bit index:
/// a grid of 255 by 255 cells has `256 * 256 == 65536` vertices.
pub const MAX_RESOLUTION: usize = 255;

} // verus!
