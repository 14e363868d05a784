//! The capability of computing an intersection with another shape.

use vstd::prelude::*;

verus! {

/// Computes the intersection of `self` with `rhs`; what the result is
/// — a point, a range, or a flag — is the implementer's choice.
pub trait Intersect<RHS> {
    /// The type of the intersection result.
    type Output;

    /// Intersects `self` with `rhs`.
    fn intersect(self, rhs: RHS) -> Self::Output;
}

} // verus!
