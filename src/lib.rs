//! Dimensionality-reduction estimators that share one lifecycle: configure,
//! fit on a dataset, publish an immutable trained state, and map new data into
//! the latent space. The numeric work of a variant is carried out by a backend
//! that hands its result to the estimator; the estimator decides what is
//! accepted, keeps every published state consistent in shape, and never
//! publishes half a fit.
pub mod error;
pub mod params;
pub mod matrix;
pub mod config;
pub mod state;
pub mod denoising;
pub mod laws;
