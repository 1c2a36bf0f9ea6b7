//! The denoising autoencoder estimator and the rules of its lifecycle.
use vstd::prelude::*;
use crate::config::{QAutoencoderConfig, latent_dim_fits};
use crate::error::MLError;
use crate::matrix::{Matrix, has_shape};
use crate::state::{DRTrainedState, TrainedStateModel};

verus! {

/// The model of what a numeric backend computed for a fit.
pub open spec fn computed_model<T>(c: Result<DRTrainedState<T>, MLError>) -> Result<
    TrainedStateModel<T>,
    MLError,
> {
    match c {
        Ok(s) => Ok(s@),
        Err(e) => Err(e),
    }
}

/// The model of an optional trained state.
pub open spec fn state_model<T>(s: Option<DRTrainedState<T>>) -> Option<TrainedStateModel<T>> {
    match s {
        Some(x) => Some(x@),
        None => None,
    }
}

/// The checks a dataset of `n_samples` rows and `n_features` columns must pass
/// before any numeric work: the data must not be empty, and the latent
/// dimensionality must fit the number of features.
pub open spec fn fit_input_outcome(latent_dim: nat, n_samples: nat, n_features: nat) -> Result<
    (),
    MLError,
> {
    if n_samples == 0 || n_features == 0 {
        Err(MLError::DimensionMismatch)
    } else if !latent_dim_fits(latent_dim, n_features) {
        Err(MLError::InvalidConfig)
    } else {
        Ok(())
    }
}

/// The result of a fit: the input checks first, then the failure of the
/// numeric computation, if any, then the shape of what it computed.
pub open spec fn fit_outcome<T>(
    latent_dim: nat,
    n_samples: nat,
    n_features: nat,
    computed: Result<TrainedStateModel<T>, MLError>,
) -> Result<(), MLError> {
    match fit_input_outcome(latent_dim, n_samples, n_features) {
        Err(e) => Err(e),
        Ok(_) => match computed {
            Err(e) => Err(e),
            Ok(s) => if s.shaped(latent_dim, n_features) {
                Ok(())
            } else {
                Err(MLError::DimensionMismatch)
            },
        },
    }
}

/// The trained state after a fit: the computed state where the fit succeeds,
/// the prior state, untouched, where it fails.
pub open spec fn state_after_fit<T>(
    prior: Option<TrainedStateModel<T>>,
    latent_dim: nat,
    n_samples: nat,
    n_features: nat,
    computed: Result<TrainedStateModel<T>, MLError>,
) -> Option<TrainedStateModel<T>> {
    if fit_outcome(latent_dim, n_samples, n_features, computed) is Ok {
        Some(computed->Ok_0)
    } else {
        prior
    }
}

/// The checks data of `n_features` columns must pass before it is mapped to
/// the latent space: a state must be present, fitted on as many features.
pub open spec fn transform_input_outcome<T>(state: Option<TrainedStateModel<T>>, n_features: nat) -> Result<
    (),
    MLError,
> {
    match state {
        None => Err(MLError::NotFitted),
        Some(s) => if s.n_features() == n_features {
            Ok(())
        } else {
            Err(MLError::DimensionMismatch)
        },
    }
}

/// The result of a transform of `n_samples` rows of `n_features` columns whose
/// projection was computed as `projected`: the input checks first, then one
/// latent row of `latent_dim` values per sample.
pub open spec fn transform_outcome<T>(
    state: Option<TrainedStateModel<T>>,
    n_samples: nat,
    n_features: nat,
    projected: Seq<Seq<T>>,
) -> Result<(), MLError> {
    match transform_input_outcome(state, n_features) {
        Err(e) => Err(e),
        Ok(_) => if has_shape(projected, n_samples, state->Some_0.latent_dim()) {
            Ok(())
        } else {
            Err(MLError::DimensionMismatch)
        },
    }
}

/// A denoising autoencoder estimator. It holds its configuration and, once a
/// fit has succeeded, the trained state of the latest successful fit.
pub struct QDenoisingAE<T> {
    config: QAutoencoderConfig<T>,
    trained_state: Option<DRTrainedState<T>>,
}

impl<T> QDenoisingAE<T> {
    /// The configuration the estimator was built with.
    pub closed spec fn configuration(&self) -> QAutoencoderConfig<T> {
        self.config
    }

    /// The latent dimensionality of the configuration.
    pub closed spec fn latent_dim(&self) -> nat {
        self.config.latent_dim as nat
    }

    /// The trained state currently published, if any.
    pub closed spec fn state(&self) -> Option<TrainedStateModel<T>> {
        state_model(self.trained_state)
    }

    /// A published state has one component per latent dimension, and every
    /// field agrees in shape with the others.
    pub closed spec fn wf(&self) -> bool {
        match self.trained_state {
            None => true,
            Some(s) => {
                &&& s.wf()
                &&& s@.shaped(self.config.latent_dim as nat, s@.n_features())
                &&& latent_dim_fits(self.config.latent_dim as nat, s@.n_features())
            },
        }
    }

    /// A fresh estimator that has not been fitted.
    pub fn new(config: QAutoencoderConfig<T>) -> (r: Self)
        ensures
            r.wf(),
            r.configuration() == config,
            r.latent_dim() == config.latent_dim,
            r.state() is None,
    {
        QDenoisingAE { config, trained_state: None }
    }

    /// The configuration.
    pub fn config(&self) -> (r: &QAutoencoderConfig<T>)
        ensures
            *r == self.configuration(),
    {
        &self.config
    }

    /// Whether a fit has succeeded.
    pub fn is_fitted(&self) -> (r: bool)
        ensures
            r == self.state() is Some,
    {
        self.trained_state.is_some()
    }

    /// Checks a dataset before the numeric work of a fit begins.
    pub fn check_fit_input(&self, data: &Matrix<T>) -> (r: Result<(), MLError>)
        ensures
            r == fit_input_outcome(self.latent_dim(), data@.len(), data.cols()),
    {
        let n_samples = data.n_rows();
        let n_features = data.n_cols();
        if n_samples == 0 || n_features == 0 {
            return Err(MLError::DimensionMismatch);
        }
        match self.config.validate(n_features) {
            Ok(_) => Ok(()),
            Err(e) => Err(e),
        }
    }

    /// Fits the estimator on `data`, where `computed` is what the numeric
    /// backend produced for it. The state is replaced as a whole, and only when
    /// every check passes; on any error the prior state stays as it was.
    pub fn fit(&mut self, data: &Matrix<T>, computed: Result<DRTrainedState<T>, MLError>) -> (r:
        Result<(), MLError>)
        requires
            old(self).wf(),
            data.wf(),
            computed matches Ok(s) ==> s.wf(),
        ensures
            final(self).wf(),
            final(self).configuration() == old(self).configuration(),
            r == fit_outcome(
                old(self).latent_dim(),
                data@.len(),
                data.cols(),
                computed_model(computed),
            ),
            final(self).state() == state_after_fit(
                old(self).state(),
                old(self).latent_dim(),
                data@.len(),
                data.cols(),
                computed_model(computed),
            ),
    {
        let checked = self.check_fit_input(data);
        if let Err(e) = checked {
            return Err(e);
        }
        match computed {
            Err(e) => Err(e),
            Ok(candidate) => {
                if candidate.is_shaped(self.config.latent_dim, data.n_cols()) {
                    self.trained_state = Some(candidate);
                    Ok(())
                } else {
                    Err(MLError::DimensionMismatch)
                }
            },
        }
    }

    /// Checks data before its projection to the latent space is computed.
    pub fn check_transform_input(&self, data: &Matrix<T>) -> (r: Result<(), MLError>)
        ensures
            r == transform_input_outcome(self.state(), data.cols()),
    {
        match &self.trained_state {
            None => Err(MLError::NotFitted),
            Some(s) => if s.n_features() == data.n_cols() {
                Ok(())
            } else {
                Err(MLError::DimensionMismatch)
            },
        }
    }

    /// Maps `data` to the latent space, where `projected` is the projection the
    /// numeric backend computed for it with the published state. Fails unless
    /// a state is present, the data has as many features as the state, and
    /// the projection has one row of latent values per sample.
    pub fn transform(&self, data: &Matrix<T>, projected: Matrix<T>) -> (r: Result<Matrix<T>, MLError>)
        requires
            self.wf(),
            projected.wf(),
        ensures
            r matches Ok(m) ==> m@ == projected@ && m.wf() && m.cols() == projected.cols(),
            r is Ok <==> transform_outcome(self.state(), data@.len(), data.cols(), projected@) is Ok,
            r matches Err(e) ==> transform_outcome(
                self.state(),
                data@.len(),
                data.cols(),
                projected@,
            ) == Err::<(), MLError>(e),
    {
        let checked = self.check_transform_input(data);
        if let Err(e) = checked {
            return Err(e);
        }
        let latent_dim = match &self.trained_state {
            Some(s) => s.latent_dim(),
            None => 0,
        };
        if projected.is_shaped(data.n_rows(), latent_dim) {
            Ok(projected)
        } else {
            Err(MLError::DimensionMismatch)
        }
    }

    /// This variant keeps no decoder, so it offers no way back from the
    /// latent space.
    pub fn inverse_transform(&self, _latent: &Matrix<T>) -> (r: Result<Matrix<T>, MLError>)
        ensures
            r matches Err(e) && e == MLError::UnsupportedOperation,
    {
        Err(MLError::UnsupportedOperation)
    }
}

/// Whatever sequence of operations led to it, an estimator never holds a
/// state whose fields disagree in shape: the basis has one row per latent
/// dimension, each as long as the mean, and the variance shares number the
/// latent dimensions.
pub proof fn lemma_published_state_consistent<T>(e: &QDenoisingAE<T>)
    requires
        e.wf(),
    ensures
        e.state() matches Some(s) ==> {
            &&& s.consistent()
            &&& s.latent_dim() == e.latent_dim()
            &&& latent_dim_fits(e.latent_dim(), s.n_features())
        },
{
}

impl<T: Copy> QDenoisingAE<T> {
    /// An independent copy of the published trained state, or `None` where no
    /// fit has succeeded.
    pub fn get_trained_state(&self) -> (r: Option<DRTrainedState<T>>)
        requires
            self.wf(),
        ensures
            state_model(r) == self.state(),
            r matches Some(s) ==> s.wf(),
    {
        match &self.trained_state {
            Some(s) => Some(s.duplicate()),
            None => None,
        }
    }
}

} // verus!
