//! Configuration errors raised by the geometry generators.

use vstd::prelude::*;

verus! {

/// A generator was asked for a mesh it cannot produce: too few rows or
/// columns for the scaling formula, or more vertices than 16-bit indices
/// can address.
#[derive(Clone, Copy, PartialEq, Eq, Structural, Debug)]
pub enum GeometryError {
    /// A column or row count below 2, for which the grid scaling formula
    /// divides by zero.
    CountTooSmall,
    /// A mesh that would hold more than 65536 vertices, beyond what 16-bit
    /// indices address.
    TooManyVertices,
}

} // verus!
