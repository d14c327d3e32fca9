//! The configuration errors the pipeline can report.

use vstd::prelude::*;

verus! {

/// Failures that propagate out of the render pipeline rather than being
/// resolved to a default color: a transform whose determinant is within
/// the tolerance of zero cannot be inverted, and a world without a light
/// cannot shade a hit.
#[derive(Clone, Copy, PartialEq, Eq, Structural, Debug)]
pub enum TraceError {
    NotInvertible,
    MissingLight,
}

} // verus!
