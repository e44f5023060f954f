//! Geometry of an animated height-field graph.
//!
//! The crate builds the static grid mesh (vertex lattice and triangle index
//! buffer) and the mesh of the cube, lays out the per-frame height samples
//! over the grid's lattice, and composes the matrices that project the scene
//! through a viewport, refusing a canvas with a zero side. Lattice coordinates
//! are kept as exact numerators over a known denominator. The matrix, viewport
//! and height functions are generic in the number type and take the arithmetic
//! from the caller, so that a renderer can run them on whatever number format
//! its graphics interface expects.

pub mod constants;
pub mod cube;
pub mod error;
pub mod grid;
pub mod heights;
pub mod matrix;
pub mod transform;
pub mod viewport;

pub use constants::{GRID_SIZE, MAX_RESOLUTION};
pub use cube::{get_cube_mesh, CubeMesh};
pub use error::GeometryError;
pub use grid::{get_position_grid_n_by_n, get_world_positions, Mesh};
pub use heights::{get_sample_offsets, get_updated_3d_y_values, sample_index_of, SampleOffset};
pub use matrix::{mult_matrix_4, scaling_matrix, translation_matrix};
pub use transform::{
    compose_matrices, get_3d_matrices, get_3d_projection_matrix, rotation_x_matrix,
    rotation_y_matrix, Matrices3D, ProjectionParts, Scene, Turn,
};
pub use viewport::{place_viewport, Placement, ViewportSpec};
