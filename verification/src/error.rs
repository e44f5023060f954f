//! The conditions under which the geometry functions refuse their input.

use vstd::prelude::*;

verus! {

/// A configuration error, reported to the caller at once and never retried.
#[derive(Clone, Copy, Debug, PartialEq, Eq)]
pub enum GeometryError {
    /// The canvas has a width or a height of zero, so that every ratio taken
    /// against it would be undefined.
    InvalidViewport,
    /// The grid has more vertices than a 16-bit index can name.
    ResolutionTooLarge,
}

} // verus!
