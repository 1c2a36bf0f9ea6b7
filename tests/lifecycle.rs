use qdenoise::config::QAutoencoderConfig;
use qdenoise::denoising::QDenoisingAE;
use qdenoise::error::MLError;
use qdenoise::matrix::Matrix;
use qdenoise::params::{ParamValue, Parameter};
use qdenoise::state::DRTrainedState;

fn dataset(n_samples: usize, n_features: usize) -> Matrix<f64> {
    let mut rows = Vec::new();
    for i in 0..n_samples {
        let mut row = Vec::new();
        for j in 0..n_features {
            row.push((i * n_features + j) as f64 * 0.5);
        }
        rows.push(row);
    }
    Matrix::from_rows(rows, n_features).unwrap()
}

fn computed_state(latent_dim: usize, n_features: usize, mean_value: f64) -> DRTrainedState<f64> {
    let components = Matrix::filled(latent_dim, n_features, 0.25);
    let ratio = vec![1.0 / latent_dim as f64; latent_dim];
    let mean = vec![mean_value; n_features];
    DRTrainedState::new(components, ratio, mean)
}

fn estimator(latent_dim: usize) -> QDenoisingAE<f64> {
    QDenoisingAE::new(QAutoencoderConfig::new(latent_dim))
}

#[test]
fn fit_scenario_hundred_by_ten() {
    let mut est = estimator(3);
    let data = dataset(100, 10);
    assert_eq!(est.fit(&data, Ok(computed_state(3, 10, 2.0))), Ok(()));
    let state = est.get_trained_state().expect("a state after a successful fit");
    assert_eq!(state.components.n_rows(), 3);
    assert_eq!(state.components.n_cols(), 10);
    for i in 0..3 {
        assert_eq!(state.components.row(i).len(), 10);
    }
    assert_eq!(state.explained_variance_ratio.len(), 3);
    assert_eq!(state.mean.len(), 10);
    assert!(state.scale.is_none());
    assert_eq!(state.latent_dim(), 3);
    assert_eq!(state.n_features(), 10);
}

#[test]
fn fit_rejects_latent_dim_above_feature_count() {
    let mut est = estimator(5);
    let data = dataset(4, 3);
    assert_eq!(est.check_fit_input(&data), Err(MLError::InvalidConfig));
    assert_eq!(est.fit(&data, Ok(computed_state(5, 3, 0.0))), Err(MLError::InvalidConfig));
    assert!(est.get_trained_state().is_none());
    assert!(!est.is_fitted());
}

#[test]
fn fit_rejects_zero_latent_dim() {
    let mut est = estimator(0);
    let data = dataset(4, 3);
    assert_eq!(est.fit(&data, Ok(computed_state(0, 3, 0.0))), Err(MLError::InvalidConfig));
}

#[test]
fn fit_rejects_empty_data() {
    let mut est = estimator(2);
    let no_rows = Matrix::<f64>::from_rows(vec![], 4).unwrap();
    assert_eq!(est.fit(&no_rows, Ok(computed_state(2, 4, 0.0))), Err(MLError::DimensionMismatch));
    let no_cols = Matrix::<f64>::from_rows(vec![vec![], vec![]], 0).unwrap();
    assert_eq!(est.fit(&no_cols, Ok(computed_state(2, 0, 0.0))), Err(MLError::DimensionMismatch));
    assert!(!est.is_fitted());
}

#[test]
fn fit_rejects_misshapen_computation() {
    let mut est = estimator(2);
    let data = dataset(5, 4);
    assert_eq!(est.fit(&data, Ok(computed_state(3, 4, 0.0))), Err(MLError::DimensionMismatch));
    assert_eq!(est.fit(&data, Ok(computed_state(2, 5, 0.0))), Err(MLError::DimensionMismatch));
    let mut scaled = computed_state(2, 4, 0.0);
    scaled.scale = Some(vec![1.0; 3]);
    assert_eq!(est.fit(&data, Ok(scaled)), Err(MLError::DimensionMismatch));
    assert!(!est.is_fitted());
}

#[test]
fn fit_accepts_matching_scale() {
    let mut est = estimator(2);
    let data = dataset(5, 4);
    let mut scaled = computed_state(2, 4, 0.0);
    scaled.scale = Some(vec![2.0; 4]);
    assert_eq!(est.fit(&data, Ok(scaled)), Ok(()));
    assert_eq!(est.get_trained_state().unwrap().scale, Some(vec![2.0; 4]));
}

#[test]
fn failed_fit_keeps_prior_state() {
    let mut est = estimator(2);
    let data = dataset(6, 4);
    assert_eq!(est.fit(&data, Ok(computed_state(2, 4, 1.5))), Ok(()));
    assert_eq!(est.fit(&data, Err(MLError::NumericFailure)), Err(MLError::NumericFailure));
    let state = est.get_trained_state().unwrap();
    assert_eq!(state.mean, vec![1.5; 4]);
    let wider = dataset(6, 7);
    assert_eq!(est.fit(&wider, Ok(computed_state(2, 4, 9.0))), Err(MLError::DimensionMismatch));
    assert_eq!(est.get_trained_state().unwrap().mean, vec![1.5; 4]);
}

#[test]
fn refit_replaces_whole_state() {
    let mut est = estimator(2);
    let data = dataset(6, 4);
    assert_eq!(est.fit(&data, Ok(computed_state(2, 4, 1.0))), Ok(()));
    let wider = dataset(6, 5);
    assert_eq!(est.fit(&wider, Ok(computed_state(2, 5, 3.0))), Ok(()));
    let state = est.get_trained_state().unwrap();
    assert_eq!(state.mean, vec![3.0; 5]);
    assert_eq!(state.components.n_cols(), 5);
    assert_eq!(state.components.n_rows(), 2);
}

#[test]
fn fitting_twice_gives_identical_state() {
    let mut est = estimator(2);
    let data = dataset(8, 3);
    assert_eq!(est.fit(&data, Ok(computed_state(2, 3, 0.75))), Ok(()));
    let first = est.get_trained_state().unwrap();
    assert_eq!(est.fit(&data, Ok(computed_state(2, 3, 0.75))), Ok(()));
    let second = est.get_trained_state().unwrap();
    assert_eq!(first.mean, second.mean);
    assert_eq!(first.explained_variance_ratio, second.explained_variance_ratio);
    for i in 0..2 {
        assert_eq!(first.components.row(i), second.components.row(i));
    }
}

#[test]
fn retrieved_state_is_independent_copy() {
    let mut est = estimator(1);
    let data = dataset(3, 2);
    assert_eq!(est.fit(&data, Ok(computed_state(1, 2, 4.0))), Ok(()));
    let mut copy = est.get_trained_state().unwrap();
    copy.mean[0] = -1.0;
    assert_eq!(est.get_trained_state().unwrap().mean, vec![4.0, 4.0]);
    assert_eq!(est.fit(&data, Ok(computed_state(1, 2, 7.0))), Ok(()));
    assert_eq!(copy.mean, vec![-1.0, 4.0]);
}

#[test]
fn transform_before_fit_is_not_fitted() {
    let est = estimator(2);
    let data = dataset(3, 4);
    assert_eq!(est.check_transform_input(&data), Err(MLError::NotFitted));
    let projected = Matrix::filled(3, 2, 0.0);
    assert!(matches!(est.transform(&data, projected), Err(MLError::NotFitted)));
}

#[test]
fn transform_checks_feature_count_and_output_shape() {
    let mut est = estimator(2);
    let data = dataset(5, 4);
    assert_eq!(est.fit(&data, Ok(computed_state(2, 4, 0.0))), Ok(()));
    let narrow = dataset(3, 3);
    assert_eq!(est.check_transform_input(&narrow), Err(MLError::DimensionMismatch));
    assert!(matches!(est.transform(&narrow, Matrix::filled(3, 2, 0.0)), Err(MLError::DimensionMismatch)));
    let sample = dataset(3, 4);
    assert_eq!(est.check_transform_input(&sample), Ok(()));
    assert!(matches!(est.transform(&sample, Matrix::filled(2, 2, 0.0)), Err(MLError::DimensionMismatch)));
    assert!(matches!(est.transform(&sample, Matrix::filled(3, 3, 0.0)), Err(MLError::DimensionMismatch)));
    let out = est.transform(&sample, Matrix::filled(3, 2, 1.25)).unwrap();
    assert_eq!(out.n_rows(), 3);
    assert_eq!(out.n_cols(), 2);
    assert_eq!(out.get(2, 1), 1.25);
}

#[test]
fn inverse_transform_is_unsupported() {
    let mut est = estimator(1);
    let data = dataset(3, 2);
    assert!(matches!(est.inverse_transform(&Matrix::filled(3, 1, 0.0)), Err(MLError::UnsupportedOperation)));
    assert_eq!(est.fit(&data, Ok(computed_state(1, 2, 0.0))), Ok(()));
    assert!(matches!(est.inverse_transform(&Matrix::filled(3, 1, 0.0)), Err(MLError::UnsupportedOperation)));
}

#[test]
fn ragged_rows_are_rejected() {
    let r = Matrix::from_rows(vec![vec![1.0, 2.0], vec![3.0]], 2);
    assert!(matches!(r, Err(MLError::DimensionMismatch)));
    let m = Matrix::from_rows(vec![vec![1.0, 2.0], vec![3.0, 4.0]], 2).unwrap();
    assert_eq!(m.get(1, 0), 3.0);
    assert_eq!(m.row(0), &vec![1.0, 2.0]);
}

#[test]
fn config_validation_bounds() {
    let cfg: QAutoencoderConfig<f64> = QAutoencoderConfig::new(3);
    assert_eq!(cfg.validate(3), Ok(()));
    assert_eq!(cfg.validate(10), Ok(()));
    assert_eq!(cfg.validate(2), Err(MLError::InvalidConfig));
    let zero: QAutoencoderConfig<f64> = QAutoencoderConfig::new(0);
    assert_eq!(zero.validate(5), Err(MLError::InvalidConfig));
}

#[test]
fn parameter_bags_are_copied() {
    let params = vec![
        Parameter { name: "noise_level".to_string(), value: ParamValue::Number(0.1) },
        Parameter { name: "layers".to_string(), value: ParamValue::Sequence(vec![8.0, 4.0]) },
    ];
    let cfg = QAutoencoderConfig::with_params(2, params);
    let est = QDenoisingAE::new(cfg.duplicate());
    assert_eq!(est.config().latent_dim, 2);
    assert_eq!(est.config().variant_params.len(), 2);
    assert_eq!(est.config().variant_params[0].name, "noise_level");
    let mut data_state = computed_state(2, 3, 0.0);
    data_state.training_statistics.push(Parameter {
        name: "ratio_proxy".to_string(),
        value: ParamValue::Text("uniform".to_string()),
    });
    data_state.model_parameters.push(Parameter { name: "converged".to_string(), value: ParamValue::Flag(true) });
    let mut est = est;
    assert_eq!(est.fit(&dataset(4, 3), Ok(data_state)), Ok(()));
    let state = est.get_trained_state().unwrap();
    assert_eq!(state.training_statistics.len(), 1);
    assert_eq!(state.training_statistics[0].name, "ratio_proxy");
    assert!(matches!(&state.training_statistics[0].value, ParamValue::Text(t) if t == "uniform"));
    assert!(matches!(state.model_parameters[0].value, ParamValue::Flag(true)));
    assert!(state.quantum_parameters.is_empty());
}
