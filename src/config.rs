use vstd::prelude::*;
use crate::error::MLError;
use crate::params::{Parameter, bag_model, copy_bag, ParamValueModel};

verus! {

/// The hyperparameters of an autoencoder-style estimator: the target latent
/// dimensionality and an open bag of variant-specific parameters.
pub struct QAutoencoderConfig<T> {
    pub latent_dim: usize,
    pub variant_params: Vec<Parameter<T>>,
}

/// Whether a latent dimensionality is usable on data with `original_dim` features.
pub open spec fn latent_dim_fits(latent_dim: nat, original_dim: nat) -> bool {
    1 <= latent_dim <= original_dim
}

impl<T> QAutoencoderConfig<T> {
    pub open spec fn params_model(&self) -> Seq<(Seq<char>, ParamValueModel<T>)> {
        bag_model(self.variant_params@)
    }

    /// A configuration with the given latent dimensionality and no
    /// variant-specific parameters.
    pub fn new(latent_dim: usize) -> (r: Self)
        ensures
            r.latent_dim == latent_dim,
            r.variant_params@.len() == 0,
    {
        QAutoencoderConfig { latent_dim, variant_params: Vec::new() }
    }

    /// A configuration with the given latent dimensionality and parameters.
    pub fn with_params(latent_dim: usize, variant_params: Vec<Parameter<T>>) -> (r: Self)
        ensures
            r.latent_dim == latent_dim,
            r.variant_params@ == variant_params@,
    {
        QAutoencoderConfig { latent_dim, variant_params }
    }

    /// Checks the configuration against the number of features of the data:
    /// the latent dimensionality must be at least one and at most that number.
    pub fn validate(&self, original_dim: usize) -> (r: Result<(), MLError>)
        ensures
            r is Ok <==> latent_dim_fits(self.latent_dim as nat, original_dim as nat),
            r is Err ==> r == Err::<(), MLError>(MLError::InvalidConfig),
    {
        if self.latent_dim < 1 || self.latent_dim > original_dim {
            Err(MLError::InvalidConfig)
        } else {
            Ok(())
        }
    }
}

impl<T: Copy> QAutoencoderConfig<T> {
    /// An independent copy of the configuration.
    pub fn duplicate(&self) -> (r: Self)
        ensures
            r.latent_dim == self.latent_dim,
            r.params_model() == self.params_model(),
    {
        QAutoencoderConfig {
            latent_dim: self.latent_dim,
            variant_params: copy_bag(&self.variant_params),
        }
    }
}

} // verus!
