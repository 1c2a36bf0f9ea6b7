use vstd::prelude::*;

verus! {

/// The ways an estimator operation can fail.
#[derive(Debug, Clone, Copy, PartialEq, Eq, Structural)]
pub enum MLError {
    /// Bad hyperparameters, such as a latent dimensionality of zero or one
    /// larger than the number of features.
    InvalidConfig,
    /// A feature count or a shape that does not match what is expected.
    DimensionMismatch,
    /// The operation needs a trained state and no fit has succeeded yet.
    NotFitted,
    /// The variant does not offer the requested operation.
    UnsupportedOperation,
    /// The numeric computation of a fit diverged or did not converge.
    NumericFailure,
}

} // verus!
