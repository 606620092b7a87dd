use thiessen::{
    Basis, Config, ConfigParts, Error, Field, Float, Gated, GatedItem, Inclusion, Membership,
    Metric, Outcome, Reason, StableBasis, StableInclusion, StableMembership, StableOutcome,
};

fn f(v: f64) -> Float {
    Float::from_bits(v.to_bits())
}

fn value(x: Float) -> f64 {
    f64::from_bits(x.to_bits())
}

fn rejects(config: Config, field: &str) {
    match config.validate() {
        Err(Error::InvalidHyperparameter { name, .. }) => assert_eq!(name.name(), field),
        other => panic!("expected a rejection of {field}, got {other:?}"),
    }
}

fn parts(config: Config) -> ConfigParts {
    ConfigParts {
        outcome: config.outcome,
        mean_params: config.mean_params,
        variance_params: config.variance_params,
        general_params: config.general_params,
        legacy_model: false,
        legacy_m: false,
        legacy_nu: false,
        legacy_q: false,
        legacy_k: false,
        legacy_sigma_c: false,
        legacy_omega: false,
        legacy_lambda_c: false,
        legacy_burn_in: false,
        legacy_draws: false,
        legacy_thinning: false,
        legacy_prior_only: false,
        legacy_offset: false,
        legacy_m_var: false,
        legacy_metric: false,
    }
}

#[test]
fn the_catalogue_names_each_family_once() {
    let names: Vec<&str> = Outcome::catalogue()
        .iter()
        .map(|outcome| match outcome {
            Outcome::Gaussian(_) => "gaussian",
            Outcome::Probit(_) => "probit",
            Outcome::Gated(_) => "gated",
        })
        .collect();
    let mut unique = names.clone();
    unique.sort();
    unique.dedup();
    assert_eq!(unique.len(), names.len(), "{names:?}");
    assert_eq!(names, ["gaussian", "probit"]);
}

#[test]
fn defaults_validate_and_resolve() {
    let config = Config::default();
    assert!(config.validate().is_ok());
    assert_eq!(config.mean_tessellations(), 200);
    assert_eq!(config.variance_tessellations(), 0);
    assert_eq!(config.model_name(), "gaussian");
    assert_eq!(value(Config::paper().mean_params.lambda_c), 25.0);
    assert_eq!(value(Config::paper().variance_params.lambda_c), 25.0);
}

#[test]
fn every_field_in_force_is_checked() {
    rejects(Config::new().with_m(0), "mean_params.tessellations");
    rejects(Config::new().with_nu(f(0.0)), "nu");
    rejects(Config::new().with_q(f(1.0)), "q");
    rejects(Config::new().with_k(f(f64::NAN)), "mean_params.k");
    rejects(
        Config::new().with_sigma_c(f(-1.0)),
        "mean_params.geometry.sigma_c",
    );
    rejects(Config::new().with_omega(f(0.0)), "mean_params.structure.omega");
    rejects(
        Config::new().with_lambda_c(f(f64::INFINITY)),
        "mean_params.lambda_c",
    );
    rejects(Config::new().with_draws(0), "draws");
    rejects(Config::new().with_thinning(0), "thinning");
}

#[test]
fn outcome_specific_fields_are_checked_only_under_their_outcome() {
    let probit = Config::new().with_outcome(Outcome::probit());
    rejects(probit.clone().with_offset(f(f64::NAN)), "offset");
    assert!(probit.clone().with_offset(f(0.3)).validate().is_ok());
    // Setters for another outcome's parameters have no effect.
    assert_eq!(probit.clone().with_nu(f(0.0)), probit);
    assert_eq!(Config::new().with_offset(f(0.3)), Config::new());
}

#[test]
fn the_variance_ensemble_derives_its_validity_from_the_mode() {
    let hetero = Config::new().with_m_var(4);
    assert!(hetero.validate().is_ok());
    assert_eq!(hetero.model_name(), "heteroscedastic");
    rejects(hetero.clone().with_nu(f(2.0)), "nu");
    rejects(
        Config::new().with_outcome(Outcome::probit()).with_m_var(4),
        "variance_params.tessellations",
    );
    let err = Config::new()
        .with_outcome(Outcome::probit())
        .with_m_var(4)
        .validate()
        .unwrap_err();
    let message = match err {
        Error::InvalidHyperparameter { reason, .. } => reason.text(),
        _ => "",
    };
    assert!(message.contains("identification"), "{message}");
    // A zero-count variance slot is not validated.
    assert!(Config::new()
        .with_outcome(Outcome::probit())
        .with_m_var(0)
        .validate()
        .is_ok());
}

#[test]
fn the_slots_must_share_geometry_and_structure_when_attached() {
    let mut config = Config::new().with_m_var(4);
    config.variance_params.geometry.sigma_c = f(0.5);
    rejects(config, "variance_params.geometry");
    let mut config = Config::new().with_m_var(4);
    config.variance_params.structure.omega = Some(f(1.0));
    rejects(config, "variance_params.structure");
    let mut detached = Config::new();
    detached.variance_params.geometry.sigma_c = f(0.5);
    assert!(detached.validate().is_ok());
}

#[test]
fn omega_default_is_min_three_p() {
    let config = Config::default();
    assert_eq!(value(config.omega_for(1)), 1.0);
    assert_eq!(value(config.omega_for(2)), 2.0);
    assert_eq!(value(config.omega_for(10)), 3.0);
    assert_eq!(value(config.with_omega(f(0.5)).omega_for(10)), 0.5);
}

#[test]
fn resolve_writes_the_counts_and_omega_back() {
    let mut config = Config::new().with_m_var(4);
    config.resolve(f(2.5));
    assert_eq!(config.mean_params.tessellations, Some(200));
    assert_eq!(config.variance_params.tessellations, Some(4));
    assert_eq!(config.mean_params.structure.omega, Some(f(2.5)));
    assert_eq!(config.variance_params.structure.omega, Some(f(2.5)));
}

#[test]
fn a_flat_configuration_names_the_replacement() {
    let mut flat = parts(Config::new());
    flat.legacy_model = true;
    flat.legacy_m = true;
    let err = Config::try_from(flat).unwrap_err();
    assert_eq!(
        err,
        Error::InvalidHyperparameter {
            name: Field::Model,
            reason: Reason::FlatConfiguration
        }
    );
    assert!(Reason::FlatConfiguration.text().contains("`outcome`"));
    let mut flat = parts(Config::new());
    flat.legacy_m_var = true;
    assert!(Config::try_from(flat).is_err());
    assert!(Reason::FlatConfiguration.text().contains("variance_params"));
    let grouped = Config::try_from(parts(Config::new().with_m(7))).unwrap();
    assert_eq!(grouped, Config::new().with_m(7));
}

#[test]
fn a_gated_outcome_is_reported_by_validate() {
    let config = Config::new().with_outcome(Outcome::from(StableOutcome::Tobit));
    assert_eq!(
        config.validate(),
        Err(Error::RequiresFeature {
            item: Gated(GatedItem::TobitOutcome)
        })
    );
    assert_eq!(GatedItem::TobitOutcome.text(), "the `tobit` outcome");
    for (name, item) in [
        (StableOutcome::Aft, GatedItem::AftOutcome),
        (StableOutcome::IntervalCensored, GatedItem::IntervalCensoredOutcome),
        (StableOutcome::Ordinal, GatedItem::OrdinalOutcome),
        (StableOutcome::StudentT, GatedItem::StudentTOutcome),
        (StableOutcome::Laplace, GatedItem::LaplaceOutcome),
    ] {
        assert_eq!(Outcome::from(name), Outcome::Gated(Gated(item)));
        assert_eq!(
            Gated(item).requires_feature(),
            Error::RequiresFeature { item: Gated(item) }
        );
    }
    let gaussian = Outcome::from(StableOutcome::Gaussian(thiessen::GaussianParams::default()));
    assert_eq!(gaussian, Outcome::gaussian());
}

#[test]
fn gated_components_are_reported_in_order() {
    let mut config = Config::new();
    config.variance_params.cell.basis = Basis::from(StableBasis::Linear);
    config.mean_params.structure.inclusion = Inclusion::from(StableInclusion::Dart);
    assert_eq!(
        config.validate(),
        Err(Error::RequiresFeature {
            item: Gated(GatedItem::DartInclusion)
        })
    );
    config.mean_params.geometry.membership = Membership::from(StableMembership::Soft);
    assert_eq!(
        config.gated(),
        Some(Gated(GatedItem::SoftMembership))
    );
    config.mean_params.geometry.precision = Some(vec![f(1.0)]);
    config.mean_params.geometry.metric = vec![
        Metric::Euclidean,
        Metric::Gated(Gated(GatedItem::CosineMetric)),
    ];
    assert_eq!(config.gated(), Some(Gated(GatedItem::CosineMetric)));
    config.outcome = Outcome::Gated(Gated(GatedItem::LaplaceOutcome));
    assert_eq!(config.gated(), Some(Gated(GatedItem::LaplaceOutcome)));
    // A gated value in a detached variance slot is still reported.
    let mut detached = Config::new();
    detached.variance_params.cell.basis = Basis::from(StableBasis::Linear);
    assert_eq!(
        detached.validate(),
        Err(Error::RequiresFeature {
            item: Gated(GatedItem::LinearBasis)
        })
    );
    assert_eq!(Membership::from(StableMembership::Hard), Membership::Hard);
    assert_eq!(Inclusion::from(StableInclusion::Uniform), Inclusion::Uniform);
    assert_eq!(
        Inclusion::from(StableInclusion::Weighted),
        Inclusion::Gated(Gated(GatedItem::WeightedInclusion))
    );
    assert_eq!(Basis::from(StableBasis::Constant), Basis::Constant);
}

#[test]
fn the_published_defaults_are_the_documented_values() {
    let config = Config::new();
    match config.outcome {
        Outcome::Gaussian(params) => {
            assert_eq!(value(params.nu), 6.0);
            assert_eq!(value(params.q), 0.85);
        }
        _ => panic!("the default outcome is gaussian"),
    }
    for slot in [&config.mean_params, &config.variance_params] {
        assert_eq!(slot.tessellations, None);
        assert_eq!(value(slot.k), 3.0);
        assert_eq!(value(slot.lambda_c), 5.0);
        assert!(slot.geometry.metric.is_empty());
        assert_eq!(value(slot.geometry.sigma_c), 0.8);
        assert!(slot.geometry.membership.is_hard());
        assert!(slot.structure.inclusion.is_uniform());
        assert!(slot.cell.basis.is_constant());
        assert_eq!(slot.structure.omega, None);
    }
    assert_eq!(config.general_params.burn_in, 200);
    assert_eq!(config.general_params.draws, 1000);
    assert_eq!(config.general_params.thinning, 1);
    assert!(!config.general_params.prior_only);
    assert_eq!(Config::paper(), Config::new().with_lambda_c(f(25.0)));
}

#[test]
fn each_rejection_carries_the_offending_value() {
    assert_eq!(
        Config::new().with_k(f(-2.0)).validate(),
        Err(Error::InvalidHyperparameter {
            name: Field::MeanK,
            reason: Reason::NotFinitePositive(f(-2.0))
        })
    );
    assert_eq!(
        Config::new().with_q(f(0.0)).validate(),
        Err(Error::InvalidHyperparameter {
            name: Field::Q,
            reason: Reason::OutsideUnitInterval(f(0.0))
        })
    );
    let err = Config::new().with_m_var(2).with_nu(f(1.5)).validate().unwrap_err();
    assert_eq!(
        err,
        Error::InvalidHyperparameter {
            name: Field::Nu,
            reason: Reason::NotAboveTwo(f(1.5))
        }
    );
    assert_eq!(Reason::NotAboveTwo(f(1.5)).value(), Some(f(1.5)));
    assert_eq!(
        Reason::NotAboveTwo(f(1.5)).text(),
        "must exceed 2 under a variance ensemble, got"
    );
    assert_eq!(Reason::AtLeastOne.value(), None);
    assert_eq!(err.field(), Some(Field::Nu));
    // The variance slot's own reals are checked once it is attached.
    let mut attached = Config::new().with_m_var(3);
    attached.variance_params.k = f(0.0);
    rejects(attached, "variance_params.k");
    let mut attached = Config::new().with_m_var(3);
    attached.variance_params.lambda_c = f(f64::NEG_INFINITY);
    rejects(attached, "variance_params.lambda_c");
}

#[test]
fn the_first_failing_check_is_reported() {
    // The count comes before the term group, which comes before the
    // outcome, which comes before the schedule.
    let config = Config::new()
        .with_m(0)
        .with_k(f(-1.0))
        .with_nu(f(-1.0))
        .with_draws(0);
    rejects(config.clone(), "mean_params.tessellations");
    rejects(config.clone().with_m(5), "mean_params.k");
    rejects(config.clone().with_m(5).with_k(f(1.0)), "nu");
    rejects(
        config.with_m(5).with_k(f(1.0)).with_nu(f(4.0)),
        "draws",
    );
}

#[test]
fn the_setters_write_both_slots() {
    let config = Config::new()
        .with_k(f(2.0))
        .with_lambda_c(f(7.0))
        .with_sigma_c(f(0.3))
        .with_omega(f(1.5))
        .with_metric(vec![Metric::Euclidean, Metric::Spherical { sphere: 1 }, Metric::Categorical]);
    for slot in [&config.mean_params, &config.variance_params] {
        assert_eq!(value(slot.k), 2.0);
        assert_eq!(value(slot.lambda_c), 7.0);
        assert_eq!(value(slot.geometry.sigma_c), 0.3);
        assert_eq!(slot.structure.omega, Some(f(1.5)));
        assert_eq!(
            slot.geometry.metric,
            vec![Metric::Euclidean, Metric::Spherical { sphere: 1 }, Metric::Categorical]
        );
    }
    let attached = config.with_m_var(3);
    assert!(attached.validate().is_ok());
    let scheduled = Config::new()
        .with_burn_in(5)
        .with_draws(6)
        .with_thinning(2)
        .with_prior_only(true);
    assert_eq!(scheduled.general_params.burn_in, 5);
    assert_eq!(scheduled.general_params.draws, 6);
    assert_eq!(scheduled.general_params.thinning, 2);
    assert!(scheduled.general_params.prior_only);
}

#[test]
fn the_offset_and_the_scale_follow_the_outcome() {
    let mut probit = Config::new().with_outcome(Outcome::probit());
    assert_eq!(probit.offset(), None);
    probit.set_offset(f(-0.2));
    assert_eq!(probit.offset(), Some(f(-0.2)));
    assert_eq!(probit.model_name(), "probit");
    let (nu, q) = probit.sigma2_prior();
    assert_eq!((value(nu), value(q)), (6.0, 0.85));
    assert_eq!(
        probit.outcome.sigma2_mode(),
        thiessen::Sigma2Mode::Fixed(f(1.0))
    );
    assert_eq!(probit.outcome.required_data(), thiessen::RequiredData::Binary);
    let mut gaussian = Config::new().with_nu(f(9.0)).with_q(f(0.5));
    gaussian.set_offset(f(1.0));
    assert_eq!(gaussian.offset(), None);
    let (nu, q) = gaussian.sigma2_prior();
    assert_eq!((value(nu), value(q)), (9.0, 0.5));
    assert_eq!(gaussian.outcome.sigma2_mode(), thiessen::Sigma2Mode::Sampled);
    assert!(gaussian.outcome.sigma2_mode().permits_variance_ensemble());
    assert!(!probit.outcome.sigma2_mode().permits_variance_ensemble());
    assert_eq!(
        gaussian.outcome.required_data(),
        thiessen::RequiredData::Continuous
    );
}

#[test]
fn resolving_a_valid_configuration_keeps_it_valid() {
    let mut config = Config::new().with_m_var(5);
    assert!(config.validate().is_ok());
    config.resolve(f(1.0));
    assert!(config.validate().is_ok());
    assert_eq!(config.mean_tessellations(), 200);
    assert_eq!(config.variance_tessellations(), 5);
    let once = config.clone();
    config.resolve(f(1.0));
    assert_eq!(config, once);
}

#[test]
fn field_names_are_the_configuration_paths() {
    assert_eq!(Field::MeanSigmaC.name(), "mean_params.geometry.sigma_c");
    assert_eq!(Field::VarianceOmega.name(), "variance_params.structure.omega");
    assert_eq!(Field::VarianceStructure.name(), "variance_params.structure");
    assert_eq!(Field::Lambda.name(), "lambda");
}
