//! Laws of the fit/transform lifecycle, stated over the decision functions
//! that the estimator's operations are specified by.
use vstd::prelude::*;
use crate::config::latent_dim_fits;
use crate::denoising::{fit_outcome, state_after_fit, transform_input_outcome, transform_outcome};
use crate::error::MLError;
use crate::matrix::has_shape;
use crate::state::TrainedStateModel;

verus! {

/// A fit on valid data, whose computation succeeded with a state of the right
/// shape, succeeds; and after any successful fit the published state has
/// exactly `latent_dim` component rows of `n_features` values each, and
/// `latent_dim` variance shares.
pub proof fn lemma_fit_publishes_shaped_state<T>(
    prior: Option<TrainedStateModel<T>>,
    latent_dim: nat,
    n_samples: nat,
    n_features: nat,
    computed: Result<TrainedStateModel<T>, MLError>,
)
    ensures
        n_samples >= 1 && latent_dim_fits(latent_dim, n_features) && computed is Ok
            && computed->Ok_0.shaped(latent_dim, n_features) ==> fit_outcome(
            latent_dim,
            n_samples,
            n_features,
            computed,
        ) is Ok,
        fit_outcome(latent_dim, n_samples, n_features, computed) is Ok ==> ({
            let after = state_after_fit(prior, latent_dim, n_samples, n_features, computed);
            &&& after is Some
            &&& has_shape(after->Some_0.components, latent_dim, n_features)
            &&& after->Some_0.explained_variance_ratio.len() == latent_dim
            &&& after->Some_0.mean.len() == n_features
        }),
{
}

/// Fitting is deterministic: a successful fit publishes the same state
/// whatever was published before, so fitting twice on the same input leaves
/// the same state as fitting once.
pub proof fn lemma_fit_deterministic<T>(
    prior1: Option<TrainedStateModel<T>>,
    prior2: Option<TrainedStateModel<T>>,
    latent_dim: nat,
    n_samples: nat,
    n_features: nat,
    computed: Result<TrainedStateModel<T>, MLError>,
)
    ensures
        fit_outcome(latent_dim, n_samples, n_features, computed) is Ok ==> state_after_fit(
            prior1,
            latent_dim,
            n_samples,
            n_features,
            computed,
        ) == state_after_fit(prior2, latent_dim, n_samples, n_features, computed),
        state_after_fit(
            state_after_fit(prior1, latent_dim, n_samples, n_features, computed),
            latent_dim,
            n_samples,
            n_features,
            computed,
        ) == state_after_fit(prior1, latent_dim, n_samples, n_features, computed),
{
}

/// Before any fit, a transform fails with `NotFitted`, whatever the data and
/// the projection handed in.
pub proof fn lemma_transform_before_fit<T>(
    n_samples: nat,
    n_features: nat,
    projected: Seq<Seq<T>>,
)
    ensures
        transform_input_outcome::<T>(None, n_features) == Err::<(), MLError>(MLError::NotFitted),
        transform_outcome::<T>(None, n_samples, n_features, projected) == Err::<(), MLError>(
            MLError::NotFitted,
        ),
{
}

/// A fit whose latent dimensionality exceeds the number of features fails
/// with `InvalidConfig` (or with `DimensionMismatch` where the data is empty),
/// and leaves the prior state in place.
pub proof fn lemma_fit_rejects_oversized_latent_dim<T>(
    prior: Option<TrainedStateModel<T>>,
    latent_dim: nat,
    n_samples: nat,
    n_features: nat,
    computed: Result<TrainedStateModel<T>, MLError>,
)
    requires
        latent_dim > n_features,
    ensures
        n_samples >= 1 && n_features >= 1 ==> fit_outcome(
            latent_dim,
            n_samples,
            n_features,
            computed,
        ) == Err::<(), MLError>(MLError::InvalidConfig),
        fit_outcome(latent_dim, n_samples, n_features, computed) == Err::<(), MLError>(
            MLError::InvalidConfig,
        ) || fit_outcome(latent_dim, n_samples, n_features, computed) == Err::<(), MLError>(
            MLError::DimensionMismatch,
        ),
        state_after_fit(prior, latent_dim, n_samples, n_features, computed) == prior,
{
}

/// A fit is all or nothing: the state after it is either the prior state or
/// the newly computed one, never a mix of the two; and if the prior state was
/// consistent in shape, so is the state after.
pub proof fn lemma_fit_all_or_nothing<T>(
    prior: Option<TrainedStateModel<T>>,
    latent_dim: nat,
    n_samples: nat,
    n_features: nat,
    computed: Result<TrainedStateModel<T>, MLError>,
)
    ensures
        state_after_fit(prior, latent_dim, n_samples, n_features, computed) == prior
            || (computed matches Ok(s) && state_after_fit(
            prior,
            latent_dim,
            n_samples,
            n_features,
            computed,
        ) == Some(s)),
        (prior matches Some(p) ==> p.consistent()) ==> (state_after_fit(
            prior,
            latent_dim,
            n_samples,
            n_features,
            computed,
        ) matches Some(s) ==> s.consistent()),
{
}

} // verus!
