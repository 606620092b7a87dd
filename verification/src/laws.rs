//! What holds of the configuration across its operations: the defaults
//! validate, a variance ensemble attaches exactly where sigma^2 is
//! sampled, a detached variance slot is not checked, gated values never
//! validate, resolution keeps the counts and the validity, the setters
//! keep the two slots in step; and, rule by rule, what validation, the
//! default omega, the pinned-prior check, parsing, labels and the `f64`
//! comparisons accept.

use vstd::prelude::*;

use crate::boundary::pinned_prior_verdict;
use crate::config::{
    default_omega, offset_of, config_from_parts, config_gated, config_is_default, has_legacy_field, model_name_of,
    resolved, term_gated, validation, with_nu_spec, with_offset_spec, with_omega_spec,
    with_q_spec, with_sigma_c_spec, Config, ConfigParts, first_gated_metric,
};
use crate::error::{Error, Field, Reason};
use crate::float::{Float, ONE_BITS, THREE_BITS, TWO_BITS, ZERO_BITS};
use crate::outcome::{
    outcome_from_stable, outcome_sigma2_mode, Gated, Outcome, ProbitParams, StableOutcome,
};
use crate::terms::{mean_count, same_geometry, same_structure, variance_count, Metric};

verus! {

/// The defaults validate, with 200 mean tessellations, no variance
/// ensemble, and the Gaussian model's name.
pub proof fn defaults_validate(c: Config)
    requires
        config_is_default(c),
    ensures
        validation(c) == Ok::<(), Error>(()),
        mean_count(c.mean_params) == 200,
        variance_count(c.variance_params) == 0,
        model_name_of(c) == "gaussian"@,
{
    assert(first_gated_metric(c.mean_params.geometry.metric@) is None);
    assert(first_gated_metric(c.variance_params.geometry.metric@) is None);
}

/// A variance ensemble may attach exactly where sigma^2 is sampled: a
/// configuration that validates with a variance count above 0 has the
/// Gaussian outcome, whose sigma^2 is sampled.
pub proof fn variance_ensemble_needs_sampled_scale(c: Config)
    requires
        validation(c) is Ok,
        variance_count(c.variance_params) > 0,
    ensures
        outcome_sigma2_mode(c.outcome) is Sampled,
        c.outcome is Gaussian,
{
}

/// A zero-count variance slot is not validated: two configurations that
/// differ only in variance slots whose counts in force are both 0, and
/// that hold the same gated value there if any, validate alike.
pub proof fn detached_variance_slot_is_not_validated(c1: Config, c2: Config)
    requires
        c1.outcome == c2.outcome,
        c1.mean_params == c2.mean_params,
        c1.general_params == c2.general_params,
        variance_count(c1.variance_params) == 0,
        variance_count(c2.variance_params) == 0,
        term_gated(c1.variance_params) == term_gated(c2.variance_params),
    ensures
        validation(c1) == validation(c2),
{
}

/// A configuration holding a value this build gates does not pass
/// validation: it is rejected with `RequiresFeature` naming the first such
/// value.
pub proof fn gated_values_never_validate(c: Config)
    requires
        config_gated(c) is Some,
    ensures
        validation(c) == Err::<(), Error>(Error::RequiresFeature { item: config_gated(c)->0 }),
{
}

/// A gated outcome name carried through parsing is reported by validation
/// as `RequiresFeature` naming that outcome.
pub proof fn gated_outcome_names_reach_validation(c: Config, name: StableOutcome)
    requires
        c.outcome == outcome_from_stable(name),
        !(name is Gaussian),
        !(name is Probit),
    ensures
        c.outcome is Gated,
        validation(c) == Err::<(), Error>(
            Error::RequiresFeature {
                item: match c.outcome {
                    Outcome::Gated(gated) => gated,
                    _ => Gated(crate::outcome::GatedItem::TobitOutcome),
                },
            },
        ),
{
}

/// Resolution writes back the counts already in force: it changes neither
/// count, and resolving again with the same omega changes nothing.
pub proof fn resolve_keeps_the_counts(c: Config, omega: Float)
    ensures
        mean_count(resolved(c, omega).mean_params) == mean_count(c.mean_params),
        variance_count(resolved(c, omega).variance_params) == variance_count(c.variance_params),
        resolved(resolved(c, omega), omega) == resolved(c, omega),
{
}

/// A configuration that validates still validates once its counts and a
/// finite positive omega are written back, as the sampler keeps it.
pub proof fn resolve_keeps_validity(c: Config, omega: Float)
    requires
        validation(c) is Ok,
        omega.finite_positive(),
    ensures
        validation(resolved(c, omega)) is Ok,
{
    let r = resolved(c, omega);
    assert(r.mean_params.geometry == c.mean_params.geometry);
    assert(r.variance_params.geometry == c.variance_params.geometry);
    assert(term_gated(r.mean_params) == term_gated(c.mean_params));
    assert(term_gated(r.variance_params) == term_gated(c.variance_params));
}

/// The geometry and structure setters write both slots: two slots that
/// declare the same geometry and structure still do after `with_sigma_c`
/// or `with_omega` with a value that is not NaN.
pub proof fn setters_keep_the_slots_in_step(c: Config, value: Float)
    requires
        same_geometry(c.variance_params.geometry, c.mean_params.geometry),
        same_structure(c.variance_params.structure, c.mean_params.structure),
        !value.nan(),
    ensures
        same_geometry(
            with_sigma_c_spec(c, value).variance_params.geometry,
            with_sigma_c_spec(c, value).mean_params.geometry,
        ),
        same_structure(
            with_sigma_c_spec(c, value).variance_params.structure,
            with_sigma_c_spec(c, value).mean_params.structure,
        ),
        same_geometry(
            with_omega_spec(c, value).variance_params.geometry,
            with_omega_spec(c, value).mean_params.geometry,
        ),
        same_structure(
            with_omega_spec(c, value).variance_params.structure,
            with_omega_spec(c, value).mean_params.structure,
        ),
{
}

/// Setters for another outcome's parameters have no effect: nu and q
/// leave a probit configuration as it is, the offset a Gaussian one.
pub proof fn other_outcome_setters_have_no_effect(c: Config, value: Float)
    ensures
        c.outcome is Probit ==> with_nu_spec(c, value) == c && with_q_spec(c, value) == c,
        c.outcome is Gaussian ==> with_offset_spec(c, value) == c,
{
}

/// Among configurations that validate, the model is named
/// "heteroscedastic" exactly when a variance ensemble is attached.
pub proof fn heteroscedastic_exactly_with_a_variance_ensemble(c: Config)
    requires
        validation(c) is Ok,
    ensures
        (model_name_of(c) == "heteroscedastic"@) <==> variance_count(c.variance_params) > 0,
{
    reveal_strlit("heteroscedastic");
    reveal_strlit("gaussian");
    reveal_strlit("probit");
    assert("gaussian"@.len() != "heteroscedastic"@.len());
    assert("probit"@.len() != "heteroscedastic"@.len());
}

/// A parsed configuration is accepted exactly when it carries no field of
/// the flat shape, and is then its four groups as parsed.
pub proof fn flat_fields_are_rejected(parts: ConfigParts)
    ensures
        config_from_parts(parts) is Err <==> has_legacy_field(parts),
        has_legacy_field(parts) ==> config_from_parts(parts) == Err::<Config, Error>(
            Error::InvalidHyperparameter { name: Field::Model, reason: Reason::FlatConfiguration },
        ),
        !has_legacy_field(parts) ==> config_from_parts(parts)->Ok_0.outcome == parts.outcome
            && config_from_parts(parts)->Ok_0.general_params == parts.general_params,
{
}

/// Under the probit outcome the offset is refused exactly when it is not
/// finite: a configuration that validates with no offset set still
/// validates with any finite offset, of either sign, and is refused naming
/// the offset when the offset is NaN or infinite.
pub proof fn probit_offsets_need_only_be_finite(c: Config, offset: Float)
    requires
        validation(Config { outcome: Outcome::Probit(ProbitParams { offset: None }), ..c }) is Ok,
    ensures
        offset.finite() ==> validation(
            Config { outcome: Outcome::Probit(ProbitParams { offset: Some(offset) }), ..c },
        ) is Ok,
        !offset.finite() ==> validation(
            Config { outcome: Outcome::Probit(ProbitParams { offset: Some(offset) }), ..c },
        ) == Err::<(), Error>(
            Error::InvalidHyperparameter { name: Field::Offset, reason: Reason::NotFinite(offset) },
        ),
{
}

/// With omega unset the omega in force for p covariates is min(3, p) as
/// an `f64`: 3 from three covariates on, p itself below; it never exceeds
/// 3, grows with p, and is finite and positive whenever there is a
/// covariate.
pub proof fn default_omega_is_min_three_p(p: usize, q: usize)
    ensures
        p >= 3 ==> default_omega(p).same_value(Float { bits: THREE_BITS }),
        p == 2 ==> default_omega(p).same_value(Float { bits: TWO_BITS }),
        p == 1 ==> default_omega(p).same_value(Float { bits: ONE_BITS }),
        p == 0 ==> default_omega(p).same_value(Float { bits: ZERO_BITS }),
        p >= 1 ==> default_omega(p).finite_positive(),
        default_omega(p).at_most(Float { bits: THREE_BITS }),
        p <= q ==> default_omega(p).at_most(default_omega(q)),
{
}

/// The pinned-prior check accepts every finite positive lambda under an
/// outcome without an offset, and under one with its offset set; it
/// refuses every other lambda naming it.
pub proof fn pinned_prior_accepts_every_positive_scale(c: Config, lambda: Float)
    ensures
        lambda.finite() && lambda.above_zero() && !(c.outcome is Probit)
            ==> pinned_prior_verdict(c, lambda) is Ok,
        lambda.finite() && lambda.above_zero() && offset_of(c.outcome) is Some
            ==> pinned_prior_verdict(c, lambda) is Ok,
        !(lambda.finite() && lambda.above_zero()) ==> pinned_prior_verdict(c, lambda) == Err::<
            (),
            Error,
        >(
            Error::InvalidHyperparameter {
                name: Field::Lambda,
                reason: Reason::NotFinitePositive(lambda),
            },
        ),
{
}

/// Each field of the flat shape on its own makes parsing fail, naming the
/// replacement.
pub proof fn each_flat_field_is_refused(parts: ConfigParts)
    ensures
        parts.legacy_model ==> config_from_parts(parts) == Err::<Config, Error>(
            Error::InvalidHyperparameter { name: Field::Model, reason: Reason::FlatConfiguration },
        ),
        parts.legacy_m ==> config_from_parts(parts) == Err::<Config, Error>(
            Error::InvalidHyperparameter { name: Field::Model, reason: Reason::FlatConfiguration },
        ),
        parts.legacy_nu ==> config_from_parts(parts) == Err::<Config, Error>(
            Error::InvalidHyperparameter { name: Field::Model, reason: Reason::FlatConfiguration },
        ),
        parts.legacy_q ==> config_from_parts(parts) == Err::<Config, Error>(
            Error::InvalidHyperparameter { name: Field::Model, reason: Reason::FlatConfiguration },
        ),
        parts.legacy_k ==> config_from_parts(parts) == Err::<Config, Error>(
            Error::InvalidHyperparameter { name: Field::Model, reason: Reason::FlatConfiguration },
        ),
        parts.legacy_sigma_c ==> config_from_parts(parts) == Err::<Config, Error>(
            Error::InvalidHyperparameter { name: Field::Model, reason: Reason::FlatConfiguration },
        ),
        parts.legacy_omega ==> config_from_parts(parts) == Err::<Config, Error>(
            Error::InvalidHyperparameter { name: Field::Model, reason: Reason::FlatConfiguration },
        ),
        parts.legacy_lambda_c ==> config_from_parts(parts) == Err::<Config, Error>(
            Error::InvalidHyperparameter { name: Field::Model, reason: Reason::FlatConfiguration },
        ),
        parts.legacy_burn_in ==> config_from_parts(parts) == Err::<Config, Error>(
            Error::InvalidHyperparameter { name: Field::Model, reason: Reason::FlatConfiguration },
        ),
        parts.legacy_draws ==> config_from_parts(parts) == Err::<Config, Error>(
            Error::InvalidHyperparameter { name: Field::Model, reason: Reason::FlatConfiguration },
        ),
        parts.legacy_thinning ==> config_from_parts(parts) == Err::<Config, Error>(
            Error::InvalidHyperparameter { name: Field::Model, reason: Reason::FlatConfiguration },
        ),
        parts.legacy_prior_only ==> config_from_parts(parts) == Err::<Config, Error>(
            Error::InvalidHyperparameter { name: Field::Model, reason: Reason::FlatConfiguration },
        ),
        parts.legacy_offset ==> config_from_parts(parts) == Err::<Config, Error>(
            Error::InvalidHyperparameter { name: Field::Model, reason: Reason::FlatConfiguration },
        ),
        parts.legacy_m_var ==> config_from_parts(parts) == Err::<Config, Error>(
            Error::InvalidHyperparameter { name: Field::Model, reason: Reason::FlatConfiguration },
        ),
        parts.legacy_metric ==> config_from_parts(parts) == Err::<Config, Error>(
            Error::InvalidHyperparameter { name: Field::Model, reason: Reason::FlatConfiguration },
        ),
{
}

/// Parsing input with no field of the flat shape gives its four groups.
pub proof fn grouped_input_is_kept(parts: ConfigParts)
    requires
        !parts.legacy_model,
        !parts.legacy_m,
        !parts.legacy_nu,
        !parts.legacy_q,
        !parts.legacy_k,
        !parts.legacy_sigma_c,
        !parts.legacy_omega,
        !parts.legacy_lambda_c,
        !parts.legacy_burn_in,
        !parts.legacy_draws,
        !parts.legacy_thinning,
        !parts.legacy_prior_only,
        !parts.legacy_offset,
        !parts.legacy_m_var,
        !parts.legacy_metric,
    ensures
        config_from_parts(parts) == Ok::<Config, Error>(
            Config {
                outcome: parts.outcome,
                mean_params: parts.mean_params,
                variance_params: parts.variance_params,
                general_params: parts.general_params,
            },
        ),
{
}

/// The least gated column names the first gated entry.
proof fn least_gated_column_is_first(metric: Seq<Metric>, j: int)
    requires
        0 <= j < metric.len(),
        metric[j] is Gated,
        forall|k: int| 0 <= k < j ==> !(#[trigger] metric[k] is Gated),
    ensures
        first_gated_metric(metric) == Some(metric[j]->Gated_0),
    decreases j,
{
    if j > 0 {
        let rest = metric.drop_first();
        assert(!(metric[0] is Gated));
        assert forall|k: int| 0 <= k < j - 1 implies !(#[trigger] rest[k] is Gated) by {
            assert(rest[k] == metric[k + 1]);
        }
        least_gated_column_is_first(rest, j - 1);
    }
}

/// Any gated column makes the first gated entry exist.
proof fn some_gated_column_is_found(metric: Seq<Metric>, j: int)
    requires
        0 <= j < metric.len(),
        metric[j] is Gated,
    ensures
        first_gated_metric(metric) is Some,
    decreases j,
{
    if j > 0 && !(metric[0] is Gated) {
        let rest = metric.drop_first();
        assert(rest[j - 1] == metric[j]);
        some_gated_column_is_found(rest, j - 1);
    }
}

/// A first gated entry is the entry of some gated column.
proof fn found_entry_is_a_gated_column(metric: Seq<Metric>) -> (j: int)
    requires
        first_gated_metric(metric) is Some,
    ensures
        0 <= j < metric.len(),
        metric[j] is Gated,
    decreases metric.len(),
{
    if metric[0] is Gated {
        0
    } else {
        let rest = metric.drop_first();
        let i = found_entry_is_a_gated_column(rest);
        assert(rest[i] == metric[i + 1]);
        i + 1
    }
}

/// The first gated entry of a metric list is the entry of the least column
/// whose metric is gated, whatever that column; there is one exactly when
/// some column's metric is gated.
pub proof fn first_gated_metric_is_the_least_gated_column(metric: Seq<Metric>)
    ensures
        (exists|j: int| 0 <= j < metric.len() && #[trigger] metric[j] is Gated)
            <==> first_gated_metric(metric) is Some,
        forall|j: int|
            0 <= j < metric.len() && #[trigger] metric[j] is Gated && (forall|k: int|
                0 <= k < j ==> !(metric[k] is Gated)) ==> first_gated_metric(metric) == Some(
                metric[j]->Gated_0,
            ),
{
    assert forall|j: int|
        0 <= j < metric.len() && #[trigger] metric[j] is Gated && (forall|k: int|
            0 <= k < j ==> !(metric[k] is Gated)) implies first_gated_metric(metric) == Some(
        metric[j]->Gated_0,
    ) by {
        least_gated_column_is_first(metric, j);
    }
    if exists|j: int| 0 <= j < metric.len() && #[trigger] metric[j] is Gated {
        let j = choose|j: int| 0 <= j < metric.len() && #[trigger] metric[j] is Gated;
        some_gated_column_is_found(metric, j);
    }
    if first_gated_metric(metric) is Some {
        let j = found_entry_is_a_gated_column(metric);
        assert(metric[j] is Gated);
    }
}

/// A real hyperparameter that is finite and positive, or unset.
pub open spec fn unset_or_finite_positive(value: Option<Float>) -> bool {
    match value {
        Some(v) => v.finite() && v.above_zero(),
        None => true,
    }
}

/// What validation accepts, rule by rule: no gated value; at least one
/// mean tessellation; k, lambda_c, sigma_c finite and positive in the mean
/// group, and omega too where set; under the Gaussian outcome nu finite
/// and positive and q strictly between 0 and 1, under the probit outcome
/// any finite offset; with a variance ensemble attached, the Gaussian
/// outcome with nu above 2, the variance group's reals under the same
/// rules, and the same geometry and structure as the mean group; and at
/// least one draw and a thinning interval of at least 1.
pub proof fn validation_accepts_exactly_the_rules(c: Config)
    ensures
        validation(c) is Ok <==> {
            &&& config_gated(c) is None
            &&& mean_count(c.mean_params) >= 1
            &&& c.mean_params.k.finite() && c.mean_params.k.above_zero()
            &&& c.mean_params.lambda_c.finite() && c.mean_params.lambda_c.above_zero()
            &&& c.mean_params.geometry.sigma_c.finite()
                && c.mean_params.geometry.sigma_c.above_zero()
            &&& unset_or_finite_positive(c.mean_params.structure.omega)
            &&& match c.outcome {
                Outcome::Gaussian(params) => params.nu.finite() && params.nu.above_zero()
                    && params.q.finite() && params.q.above_zero() && params.q.below(
                    Float { bits: ONE_BITS },
                ),
                Outcome::Probit(params) => match params.offset {
                    Some(offset) => offset.finite(),
                    None => true,
                },
                Outcome::Gated(_) => true,
            }
            &&& variance_count(c.variance_params) > 0 ==> {
                &&& c.outcome is Gaussian
                &&& (Float { bits: TWO_BITS }).below(c.outcome->Gaussian_0.nu)
                &&& c.variance_params.k.finite() && c.variance_params.k.above_zero()
                &&& c.variance_params.lambda_c.finite() && c.variance_params.lambda_c.above_zero()
                &&& c.variance_params.geometry.sigma_c.finite()
                    && c.variance_params.geometry.sigma_c.above_zero()
                &&& unset_or_finite_positive(c.variance_params.structure.omega)
                &&& same_geometry(c.variance_params.geometry, c.mean_params.geometry)
                &&& same_structure(c.variance_params.structure, c.mean_params.structure)
            }
            &&& c.general_params.draws >= 1
            &&& c.general_params.thinning >= 1
        },
{
}

/// `f64` comparison is a total order on the values that are not NaN,
/// with the two zeros equal, every negative value below every positive
/// one, and NaN compared to nothing.
pub proof fn float_comparison_orders_the_reals(a: Float, b: Float, d: Float)
    ensures
        a.nan() ==> !a.below(b) && !b.below(a) && !a.same_value(b) && !a.at_most(b),
        !a.nan() ==> a.same_value(a),
        !a.nan() && !b.nan() ==> (a.below(b) || a.same_value(b) || b.below(a)),
        a.below(b) ==> !b.at_most(a),
        a.at_most(b) <==> (a.below(b) || a.same_value(b)),
        a.below(b) && b.below(d) ==> a.below(d),
        (Float { bits: 0 }).same_value(Float { bits: crate::float::SIGN_BIT }),
        !a.nan() && a.negative() && a.magnitude() > 0 && !b.nan() && !b.negative()
            ==> a.below(b),
        (Float { bits: ZERO_BITS }).below(Float { bits: ONE_BITS }),
        (Float { bits: ONE_BITS }).below(Float { bits: TWO_BITS }),
        (Float { bits: TWO_BITS }).below(Float { bits: THREE_BITS }),
        !(Float { bits: crate::float::INFINITY_BITS }).finite(),
        (Float { bits: 0x7FF8_0000_0000_0000 }).nan(),
{
}

/// The probit model reads as labels exactly the patterns of 0.0, -0.0 and
/// 1.0.
pub proof fn labels_are_zero_and_one(v: Float)
    ensures
        crate::boundary::is_label(v) <==> (v.bits == 0 || v.bits == crate::float::SIGN_BIT
            || v.bits == ONE_BITS),
{
}

/// A gated metric entry in any column of the mean group is refused by
/// validation, naming the entry of the least such column, whatever the
/// other columns hold (unless the outcome itself is gated, which is named
/// first).
pub proof fn a_gated_metric_in_any_column_is_refused(c: Config, j: int)
    requires
        !(c.outcome is Gated),
        0 <= j < c.mean_params.geometry.metric@.len(),
        c.mean_params.geometry.metric@[j] is Gated,
        forall|k: int| 0 <= k < j ==> !(#[trigger] c.mean_params.geometry.metric@[k] is Gated),
    ensures
        validation(c) == Err::<(), Error>(
            Error::RequiresFeature { item: c.mean_params.geometry.metric@[j]->Gated_0 },
        ),
{
    least_gated_column_is_first(c.mean_params.geometry.metric@, j);
}

} // verus!
