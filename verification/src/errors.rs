//! Failure taxonomy of the estimation engines.

use vstd::prelude::*;

verus! {

/// Everything that an engine or a configuration constructor can reject.
///
/// Configuration mistakes are reported at construction time, before any
/// numeric work; degenerate inputs and numeric failures are reported by the
/// engine call itself, never silently turned into non-finite values.
#[derive(Clone, Copy, Debug, PartialEq, Eq, Structural)]
pub enum Error {
    /// The requested radial-basis kernel name is not one of the supported ones.
    UnknownKernelName,
    /// The Gram matrix of the radial-basis system could not be solved.
    SingularSystem,
    /// An inverse-distance cell ended with a weight sum equal to zero.
    ZeroWeightSum,
    /// The observation set is empty.
    EmptyObservations,
    /// The characteristic span of a potential grid is not strictly positive.
    InvalidSpan,
    /// A grid resolution is zero in at least one dimension.
    InvalidResolution,
    /// The requested degree of parallelism is zero.
    InvalidParallelism,
}

} // verus!
