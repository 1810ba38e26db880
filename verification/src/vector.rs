//! Displacements on the pixel grid.

use vstd::prelude::*;

verus! {

/// A displacement in whole pixels.
#[derive(Clone, Copy, Debug, PartialEq, Eq, Structural)]
pub struct Vector {
    /// The horizontal part.
    pub x: i32,
    /// The vertical part.
    pub y: i32,
}

impl Vector {
    /// No displacement at all.
    pub open spec fn spec_zero() -> Vector {
        Vector { x: 0, y: 0 }
    }

    /// No displacement at all.
    #[verifier::when_used_as_spec(spec_zero)]
    pub fn zero() -> (vector: Vector)
        ensures
            vector == Vector::spec_zero(),
    {
        Vector { x: 0, y: 0 }
    }
}

} // verus!
