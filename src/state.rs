use vstd::prelude::*;
use crate::matrix::{Matrix, has_shape};
use crate::params::{Parameter, ParamValueModel, bag_model, copy_bag, copy_values};

verus! {

/// The mathematical model of a trained state.
pub struct TrainedStateModel<T> {
    pub components: Seq<Seq<T>>,
    pub explained_variance_ratio: Seq<T>,
    pub mean: Seq<T>,
    pub scale: Option<Seq<T>>,
    pub quantum_parameters: Seq<(Seq<char>, ParamValueModel<T>)>,
    pub model_parameters: Seq<(Seq<char>, ParamValueModel<T>)>,
    pub training_statistics: Seq<(Seq<char>, ParamValueModel<T>)>,
}

impl<T> TrainedStateModel<T> {
    /// Whether the state is that of a fit with `latent_dim` components over
    /// `n_features` features: one basis row and one variance share per
    /// component, each row, the mean and the scale (if any) as long as a sample.
    pub open spec fn shaped(&self, latent_dim: nat, n_features: nat) -> bool {
        &&& has_shape(self.components, latent_dim, n_features)
        &&& self.explained_variance_ratio.len() == latent_dim
        &&& self.mean.len() == n_features
        &&& (self.scale matches Some(s) ==> s.len() == n_features)
    }

    /// The number of latent dimensions the state maps to.
    pub open spec fn latent_dim(&self) -> nat {
        self.explained_variance_ratio.len()
    }

    /// The number of features of the data the state was fitted on.
    pub open spec fn n_features(&self) -> nat {
        self.mean.len()
    }

    /// Whether all fields agree in shape with one another.
    pub open spec fn consistent(&self) -> bool {
        self.shaped(self.latent_dim(), self.n_features())
    }
}

/// The complete artifact of a successful fit: the latent basis, the share of
/// variance (or a documented proxy of it) that each component accounts for,
/// the centering and optional scaling statistics, and open bags of
/// variant-specific parameters and training diagnostics.
pub struct DRTrainedState<T> {
    pub components: Matrix<T>,
    pub explained_variance_ratio: Vec<T>,
    pub mean: Vec<T>,
    pub scale: Option<Vec<T>>,
    pub quantum_parameters: Vec<Parameter<T>>,
    pub model_parameters: Vec<Parameter<T>>,
    pub training_statistics: Vec<Parameter<T>>,
}

pub open spec fn opt_seq<T>(v: Option<Vec<T>>) -> Option<Seq<T>> {
    match v {
        Some(x) => Some(x@),
        None => None,
    }
}

impl<T> DRTrainedState<T> {
    pub open spec fn view(&self) -> TrainedStateModel<T> {
        TrainedStateModel {
            components: self.components@,
            explained_variance_ratio: self.explained_variance_ratio@,
            mean: self.mean@,
            scale: opt_seq(self.scale),
            quantum_parameters: bag_model(self.quantum_parameters@),
            model_parameters: bag_model(self.model_parameters@),
            training_statistics: bag_model(self.training_statistics@),
        }
    }

    pub open spec fn wf(&self) -> bool {
        self.components.wf()
    }

    /// A state with the given centering, basis and variance shares, no
    /// scaling and empty parameter bags.
    pub fn new(components: Matrix<T>, explained_variance_ratio: Vec<T>, mean: Vec<T>) -> (r: Self)
        ensures
            r.components == components,
            r@.explained_variance_ratio == explained_variance_ratio@,
            r@.mean == mean@,
            r@.scale is None,
            r@.quantum_parameters.len() == 0,
            r@.model_parameters.len() == 0,
            r@.training_statistics.len() == 0,
    {
        let r = DRTrainedState {
            components,
            explained_variance_ratio,
            mean,
            scale: None,
            quantum_parameters: Vec::new(),
            model_parameters: Vec::new(),
            training_statistics: Vec::new(),
        };
        assert(r@.quantum_parameters =~= Seq::empty());
        assert(r@.model_parameters =~= Seq::empty());
        assert(r@.training_statistics =~= Seq::empty());
        r
    }

    /// The number of latent dimensions.
    pub fn latent_dim(&self) -> (r: usize)
        ensures
            r == self@.latent_dim(),
    {
        self.explained_variance_ratio.len()
    }

    /// The number of features.
    pub fn n_features(&self) -> (r: usize)
        ensures
            r == self@.n_features(),
    {
        self.mean.len()
    }

    /// Whether the state has `latent_dim` components over `n_features` features.
    pub fn is_shaped(&self, latent_dim: usize, n_features: usize) -> (r: bool)
        requires
            self.wf(),
        ensures
            r == self@.shaped(latent_dim as nat, n_features as nat),
    {
        let scale_fits = match &self.scale {
            Some(s) => s.len() == n_features,
            None => true,
        };
        self.components.is_shaped(latent_dim, n_features)
            && self.explained_variance_ratio.len() == latent_dim
            && self.mean.len() == n_features
            && scale_fits
    }
}

impl<T: Copy> DRTrainedState<T> {
    /// An independent copy of the state: nothing done to one later affects the other.
    pub fn duplicate(&self) -> (r: Self)
        requires
            self.wf(),
        ensures
            r.wf(),
            r@ == self@,
    {
        let scale = match &self.scale {
            Some(s) => Some(copy_values(s)),
            None => None,
        };
        DRTrainedState {
            components: self.components.duplicate(),
            explained_variance_ratio: copy_values(&self.explained_variance_ratio),
            mean: copy_values(&self.mean),
            scale,
            quantum_parameters: copy_bag(&self.quantum_parameters),
            model_parameters: copy_bag(&self.model_parameters),
            training_statistics: copy_bag(&self.training_statistics),
        }
    }
}

} // verus!
