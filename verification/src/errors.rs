use vstd::prelude::*;

verus! {

/// The error kinds a design run can report to its caller.
///
/// `InvalidConfiguration` is raised before any matrix work: a non-positive
/// filter length, a stopband ripple that is not positive, or band edges that
/// are not ordered would feed a non-positive logarithm or an empty band.
/// `NumericDegeneracy` names a ratio-test row whose denominator is exactly
/// zero with a negative numerator; producers must guard that row (treating
/// its step bound as unbounded) rather than divide. `NonConvergence` tags a
/// coefficient vector that exhausted the iteration budget and therefore must
/// not be mistaken for a certified feasible point.
#[derive(Clone, Copy, Debug, PartialEq, Eq, Structural)]
pub enum DesignError {
    InvalidConfiguration,
    NumericDegeneracy,
    NonConvergence,
}

} // verus!
