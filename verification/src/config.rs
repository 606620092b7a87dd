//! Model configuration (`Config`): the outcome model and the parameter
//! groups, `Default`, consuming `with_*` setters and a data-free
//! `validate()`.

use vstd::prelude::*;

use crate::error::{field_name, invalid, Error, Field, Reason};
use crate::float::{Float, ONE_BITS, THREE_BITS, TWO_BITS, ZERO_BITS};
use crate::outcome::{
    gaussian_defaults, gaussian_outcome, outcome_sigma2_mode, Gated, GatedItem, GaussianParams,
    Outcome, ProbitParams,
};
use crate::terms::{
    general_defaults, mean_count, same_geometry, same_structure, term_is_default,
    variance_count, Basis, GeneralParams, Inclusion, Membership, Metric, StructureParams,
    TermParams,
};

verus! {

/// The pattern of 25.0, the paper's cell-count prior rate.
pub const PAPER_LAMBDA_C_BITS: u64 = 0x4039_0000_0000_0000;

/// Configuration of an AddiVortes fit: the outcome model, one term group
/// per ensemble, and the sweep schedule (Stone and Gosling 2025, s. 2).
///
/// Setters never panic or clamp; [`validate`](Config::validate) checks
/// every field in force. The geometry and structure setters write both
/// slots, since the ensembles must declare identical geometry.
#[derive(Clone, Debug, PartialEq)]
pub struct Config {
    /// The observation model, carrying its own parameters and its sigma^2
    /// settings.
    pub outcome: Outcome,
    /// The ensemble describing the average.
    pub mean_params: TermParams,
    /// The ensemble describing the spread; a resolved count of 0, the
    /// default, is a constant spread.
    pub variance_params: TermParams,
    /// Burn-in, draws, thinning, prior-only sampling.
    pub general_params: GeneralParams,
}

/// The defaults: the Gaussian outcome, both term groups at their
/// defaults, the default schedule.
pub open spec fn config_is_default(c: Config) -> bool {
    &&& c.outcome == gaussian_outcome()
    &&& term_is_default(c.mean_params)
    &&& term_is_default(c.variance_params)
    &&& c.general_params == general_defaults()
}

impl Default for Config {
    fn default() -> (r: Self)
        ensures
            config_is_default(r),
    {
        Config {
            outcome: Outcome::default(),
            mean_params: TermParams::default(),
            variance_params: TermParams::default(),
            general_params: GeneralParams::default(),
        }
    }
}

/// One of the two term groups.
#[derive(Clone, Copy, Debug, PartialEq, Eq, Structural)]
pub enum Slot {
    /// `mean_params`
    Mean,
    /// `variance_params`
    Variance,
}

/// The field naming `k` in a slot.
pub open spec fn k_field(slot: Slot) -> Field {
    match slot {
        Slot::Mean => Field::MeanK,
        Slot::Variance => Field::VarianceK,
    }
}

/// The field naming `lambda_c` in a slot.
pub open spec fn lambda_c_field(slot: Slot) -> Field {
    match slot {
        Slot::Mean => Field::MeanLambdaC,
        Slot::Variance => Field::VarianceLambdaC,
    }
}

/// The field naming `geometry.sigma_c` in a slot.
pub open spec fn sigma_c_field(slot: Slot) -> Field {
    match slot {
        Slot::Mean => Field::MeanSigmaC,
        Slot::Variance => Field::VarianceSigmaC,
    }
}

/// The field naming `structure.omega` in a slot.
pub open spec fn omega_field(slot: Slot) -> Field {
    match slot {
        Slot::Mean => Field::MeanOmega,
        Slot::Variance => Field::VarianceOmega,
    }
}

/// The first rule a term group breaks: k, lambda_c and sigma_c finite
/// and positive, and omega too where it is set.
pub open spec fn term_error(slot: Slot, t: TermParams) -> Option<Error> {
    if !t.k.finite_positive() {
        Some(invalid(k_field(slot), Reason::NotFinitePositive(t.k)))
    } else if !t.lambda_c.finite_positive() {
        Some(invalid(lambda_c_field(slot), Reason::NotFinitePositive(t.lambda_c)))
    } else if !t.geometry.sigma_c.finite_positive() {
        Some(invalid(sigma_c_field(slot), Reason::NotFinitePositive(t.geometry.sigma_c)))
    } else {
        match t.structure.omega {
            Some(omega) => if !omega.finite_positive() {
                Some(invalid(omega_field(slot), Reason::NotFinitePositive(omega)))
            } else {
                None
            },
            None => None,
        }
    }
}

/// The first gated entry of a metric list.
pub open spec fn first_gated_metric(metric: Seq<Metric>) -> Option<Gated>
    decreases metric.len(),
{
    if metric.len() == 0 {
        None
    } else {
        match metric[0] {
            Metric::Gated(gated) => Some(gated),
            _ => first_gated_metric(metric.drop_first()),
        }
    }
}

/// The first value a term group holds that this build gates: its metric
/// entries in column order, then its membership, its precision (any
/// value), its inclusion prior and its cell basis.
pub open spec fn term_gated(t: TermParams) -> Option<Gated> {
    match first_gated_metric(t.geometry.metric@) {
        Some(gated) => Some(gated),
        None => match t.geometry.membership {
            Membership::Gated(gated) => Some(gated),
            Membership::Hard => if t.geometry.precision is Some {
                Some(Gated(GatedItem::Precision))
            } else {
                match t.structure.inclusion {
                    Inclusion::Gated(gated) => Some(gated),
                    Inclusion::Uniform => match t.cell.basis {
                        Basis::Gated(gated) => Some(gated),
                        Basis::Constant => None,
                    },
                }
            },
        },
    }
}

/// The first value a configuration holds that this build gates: the
/// outcome, then the mean term group, then the variance term group.
pub open spec fn config_gated(c: Config) -> Option<Gated> {
    match c.outcome {
        Outcome::Gated(gated) => Some(gated),
        _ => match term_gated(c.mean_params) {
            Some(gated) => Some(gated),
            None => term_gated(c.variance_params),
        },
    }
}

/// The first rule the outcome's own parameters break: under the Gaussian
/// outcome nu finite and positive and q in (0, 1); under the probit
/// outcome a finite offset where one is set.
pub open spec fn outcome_error(outcome: Outcome) -> Option<Error> {
    match outcome {
        Outcome::Gaussian(params) => if !params.nu.finite_positive() {
            Some(invalid(Field::Nu, Reason::NotFinitePositive(params.nu)))
        } else if !(params.q.finite() && params.q.above_zero() && params.q.below(
            Float { bits: ONE_BITS },
        )) {
            Some(invalid(Field::Q, Reason::OutsideUnitInterval(params.q)))
        } else {
            None
        },
        Outcome::Probit(params) => match params.offset {
            Some(c) => if !c.finite() {
                Some(invalid(Field::Offset, Reason::NotFinite(c)))
            } else {
                None
            },
            None => None,
        },
        Outcome::Gated(_) => None,
    }
}

/// The sigma^2 prior (nu, q) of an outcome that samples one; the defaults
/// where the outcome carries none.
pub open spec fn sigma2_prior_of(outcome: Outcome) -> (Float, Float) {
    match outcome {
        Outcome::Gaussian(params) => (params.nu, params.q),
        _ => (gaussian_defaults().nu, gaussian_defaults().q),
    }
}

/// The verdict of validation: the first rule, in the order below, that
/// the configuration breaks.
///
/// 1. A gated value anywhere: `RequiresFeature`.
/// 2. The mean count in force is at least 1.
/// 3. The mean term group's reals.
/// 4. The outcome's parameters.
/// 5. With a variance count in force above 0: a sampled sigma^2, nu above
///    2, the variance term group's reals, and geometry and structure equal
///    to the mean group's.
/// 6. At least one draw, and a thinning interval of at least 1.
pub open spec fn validation(c: Config) -> Result<(), Error> {
    let attached = variance_count(c.variance_params) > 0;
    if config_gated(c) is Some {
        Err(Error::RequiresFeature { item: config_gated(c)->0 })
    } else if mean_count(c.mean_params) < 1 {
        Err(invalid(Field::MeanTessellations, Reason::AtLeastOne))
    } else if term_error(Slot::Mean, c.mean_params) is Some {
        Err(term_error(Slot::Mean, c.mean_params)->0)
    } else if outcome_error(c.outcome) is Some {
        Err(outcome_error(c.outcome)->0)
    } else if attached && !(outcome_sigma2_mode(c.outcome) is Sampled) {
        Err(invalid(Field::VarianceTessellations, Reason::ScaleNotSampled))
    } else if attached && sigma2_prior_of(c.outcome).0.at_most(Float { bits: TWO_BITS }) {
        Err(invalid(Field::Nu, Reason::NotAboveTwo(sigma2_prior_of(c.outcome).0)))
    } else if attached && term_error(Slot::Variance, c.variance_params) is Some {
        Err(term_error(Slot::Variance, c.variance_params)->0)
    } else if attached && !same_geometry(c.variance_params.geometry, c.mean_params.geometry) {
        Err(invalid(Field::VarianceGeometry, Reason::GeometryDiffers))
    } else if attached && !same_structure(c.variance_params.structure, c.mean_params.structure) {
        Err(invalid(Field::VarianceStructure, Reason::StructureDiffers))
    } else if c.general_params.draws < 1 {
        Err(invalid(Field::Draws, Reason::AtLeastOne))
    } else if c.general_params.thinning < 1 {
        Err(invalid(Field::Thinning, Reason::AtLeastOne))
    } else {
        Ok(())
    }
}

/// The fitted model's name: the outcome's, or "heteroscedastic" for the
/// Gaussian outcome with a variance ensemble attached.
pub open spec fn model_name_of(c: Config) -> Seq<char> {
    match c.outcome {
        Outcome::Probit(_) => "probit"@,
        _ => if variance_count(c.variance_params) == 0 {
            "gaussian"@
        } else {
            "heteroscedastic"@
        },
    }
}

/// The omega in force for p covariates when none is set: min(3, p), as
/// the pattern of that `f64`.
pub open spec fn default_omega(p: usize) -> Float {
    if p >= 3 {
        Float { bits: THREE_BITS }
    } else if p == 2 {
        Float { bits: TWO_BITS }
    } else if p == 1 {
        Float { bits: ONE_BITS }
    } else {
        Float { bits: ZERO_BITS }
    }
}

/// The offset c of an outcome with one.
pub open spec fn offset_of(outcome: Outcome) -> Option<Float> {
    match outcome {
        Outcome::Probit(params) => params.offset,
        _ => None,
    }
}

/// The configuration with the counts in force and omega written back on
/// both slots.
pub open spec fn resolved(c: Config, omega: Float) -> Config {
    Config {
        mean_params: TermParams {
            tessellations: Some(mean_count(c.mean_params) as usize),
            structure: StructureParams { omega: Some(omega), ..c.mean_params.structure },
            ..c.mean_params
        },
        variance_params: TermParams {
            tessellations: Some(variance_count(c.variance_params) as usize),
            structure: StructureParams { omega: Some(omega), ..c.variance_params.structure },
            ..c.variance_params
        },
        ..c
    }
}

/// The term group with lambda_c at its default and every other field
/// as it stands.
pub open spec fn with_default_lambda_c(t: TermParams) -> TermParams {
    TermParams { lambda_c: Float { bits: crate::terms::DEFAULT_LAMBDA_C_BITS }, ..t }
}

/// `with_k`: k on both slots.
pub open spec fn with_k_spec(c: Config, k: Float) -> Config {
    Config {
        mean_params: TermParams { k, ..c.mean_params },
        variance_params: TermParams { k, ..c.variance_params },
        ..c
    }
}

/// `with_lambda_c`: lambda_c on both slots.
pub open spec fn with_lambda_c_spec(c: Config, lambda_c: Float) -> Config {
    Config {
        mean_params: TermParams { lambda_c, ..c.mean_params },
        variance_params: TermParams { lambda_c, ..c.variance_params },
        ..c
    }
}

/// `with_sigma_c`: sigma_c on both slots.
pub open spec fn with_sigma_c_spec(c: Config, sigma_c: Float) -> Config {
    Config {
        mean_params: TermParams {
            geometry: crate::terms::GeometryParams { sigma_c, ..c.mean_params.geometry },
            ..c.mean_params
        },
        variance_params: TermParams {
            geometry: crate::terms::GeometryParams { sigma_c, ..c.variance_params.geometry },
            ..c.variance_params
        },
        ..c
    }
}

/// `with_omega`: omega on both slots.
pub open spec fn with_omega_spec(c: Config, omega: Float) -> Config {
    Config {
        mean_params: TermParams {
            structure: StructureParams { omega: Some(omega), ..c.mean_params.structure },
            ..c.mean_params
        },
        variance_params: TermParams {
            structure: StructureParams { omega: Some(omega), ..c.variance_params.structure },
            ..c.variance_params
        },
        ..c
    }
}

/// `with_nu`: nu of an outcome with a sampled sigma^2; no change under
/// another outcome.
pub open spec fn with_nu_spec(c: Config, nu: Float) -> Config {
    match c.outcome {
        Outcome::Gaussian(params) => Config {
            outcome: Outcome::Gaussian(GaussianParams { nu, ..params }),
            ..c
        },
        _ => c,
    }
}

/// `with_q`: q of an outcome with a sampled sigma^2; no change under
/// another outcome.
pub open spec fn with_q_spec(c: Config, q: Float) -> Config {
    match c.outcome {
        Outcome::Gaussian(params) => Config {
            outcome: Outcome::Gaussian(GaussianParams { q, ..params }),
            ..c
        },
        _ => c,
    }
}

/// `with_offset`: the offset of an outcome with one; no change under
/// another outcome.
pub open spec fn with_offset_spec(c: Config, offset: Float) -> Config {
    match c.outcome {
        Outcome::Probit(_) => Config {
            outcome: Outcome::Probit(ProbitParams { offset: Some(offset) }),
            ..c
        },
        _ => c,
    }
}

/// The first gated entry of a metric list.
fn metric_gated(metric: &Vec<Metric>) -> (r: Option<Gated>)
    ensures
        r == first_gated_metric(metric@),
{
    let mut i: usize = 0;
    assert(metric@.subrange(0, metric@.len() as int) =~= metric@);
    while i < metric.len()
        invariant
            i <= metric.len(),
            first_gated_metric(metric@) == first_gated_metric(metric@.subrange(i as int, metric@.len() as int)),
        decreases metric.len() - i,
    {
        let ghost rest = metric@.subrange(i as int, metric@.len() as int);
        assert(rest.drop_first() =~= metric@.subrange(i + 1, metric@.len() as int));
        assert(rest[0] == metric@[i as int]);
        if let Metric::Gated(gated) = metric[i] {
            return Some(gated);
        }
        i = i + 1;
    }
    assert(metric@.subrange(i as int, metric@.len() as int).len() == 0);
    None
}

/// The first value a term group holds that this build gates.
fn term_gated_value(params: &TermParams) -> (r: Option<Gated>)
    ensures
        r == term_gated(*params),
{
    if let Some(gated) = metric_gated(&params.geometry.metric) {
        return Some(gated);
    }
    if let Membership::Gated(gated) = params.geometry.membership {
        return Some(gated);
    }
    if params.geometry.precision.is_some() {
        return Some(Gated(GatedItem::Precision));
    }
    if let Inclusion::Gated(gated) = params.structure.inclusion {
        return Some(gated);
    }
    if let Basis::Gated(gated) = params.cell.basis {
        return Some(gated);
    }
    None
}

/// `value` must be finite and positive.
fn positive(name: Field, value: Float) -> (r: Result<(), Error>)
    ensures
        r == (if value.finite_positive() {
            Ok::<(), Error>(())
        } else {
            Err(invalid(name, Reason::NotFinitePositive(value)))
        }),
{
    if value.is_finite_positive() {
        Ok(())
    } else {
        Err(Error::InvalidHyperparameter { name, reason: Reason::NotFinitePositive(value) })
    }
}

/// The first rule a term group breaks, with the slot's field names.
fn validate_term(slot: Slot, params: &TermParams) -> (r: Result<(), Error>)
    ensures
        r == (match term_error(slot, *params) {
            Some(e) => Err(e),
            None => Ok::<(), Error>(()),
        }),
{
    let (k, lambda_c, sigma_c, omega) = match slot {
        Slot::Mean => (Field::MeanK, Field::MeanLambdaC, Field::MeanSigmaC, Field::MeanOmega),
        Slot::Variance => (
            Field::VarianceK,
            Field::VarianceLambdaC,
            Field::VarianceSigmaC,
            Field::VarianceOmega,
        ),
    };
    positive(k, params.k)?;
    positive(lambda_c, params.lambda_c)?;
    positive(sigma_c, params.geometry.sigma_c)?;
    if let Some(value) = params.structure.omega {
        positive(omega, value)?;
    }
    Ok(())
}

impl Config {
    /// The defaults.
    pub fn new() -> (r: Self)
        ensures
            config_is_default(r),
    {
        Self::default()
    }

    /// The paper's settings: the defaults with lambda_c = 25 on both
    /// slots (Stone and Gosling 2025, s. 2.3).
    pub fn paper() -> (r: Self)
        ensures
            r.outcome == gaussian_outcome(),
            r.general_params == general_defaults(),
            term_is_default(with_default_lambda_c(r.mean_params)),
            term_is_default(with_default_lambda_c(r.variance_params)),
            r.mean_params.lambda_c == (Float { bits: PAPER_LAMBDA_C_BITS }),
            r.variance_params.lambda_c == (Float { bits: PAPER_LAMBDA_C_BITS }),
    {
        Self::default().with_lambda_c(Float { bits: PAPER_LAMBDA_C_BITS })
    }

    /// The observation model.
    pub fn with_outcome(self, outcome: Outcome) -> (r: Self)
        ensures
            r == (Config { outcome, ..self }),
    {
        let mut config = self;
        config.outcome = outcome;
        config
    }

    /// Mean-ensemble size m.
    pub fn with_m(self, m: usize) -> (r: Self)
        ensures
            r == (Config {
                mean_params: TermParams { tessellations: Some(m), ..self.mean_params },
                ..self
            }),
    {
        let mut config = self;
        config.mean_params.tessellations = Some(m);
        config
    }

    /// Variance-ensemble size m'; above 0 is H-AddiVortes.
    pub fn with_m_var(self, m_var: usize) -> (r: Self)
        ensures
            r == (Config {
                variance_params: TermParams { tessellations: Some(m_var), ..self.variance_params },
                ..self
            }),
    {
        let mut config = self;
        config.variance_params.tessellations = Some(m_var);
        config
    }

    /// sigma^2 prior degrees of freedom nu of an outcome with a sampled
    /// sigma^2; no effect under another outcome.
    pub fn with_nu(self, nu: Float) -> (r: Self)
        ensures
            r == with_nu_spec(self, nu),
    {
        let mut config = self;
        if let Outcome::Gaussian(params) = config.outcome {
            config.outcome = Outcome::Gaussian(GaussianParams { nu, ..params });
        }
        config
    }

    /// sigma^2 prior calibration quantile q of an outcome with a sampled
    /// sigma^2; no effect under another outcome.
    pub fn with_q(self, q: Float) -> (r: Self)
        ensures
            r == with_q_spec(self, q),
    {
        let mut config = self;
        if let Outcome::Gaussian(params) = config.outcome {
            config.outcome = Outcome::Gaussian(GaussianParams { q, ..params });
        }
        config
    }

    /// The offset c of an outcome with one (the probit model); no effect
    /// under another outcome.
    pub fn with_offset(self, offset: Float) -> (r: Self)
        ensures
            r == with_offset_spec(self, offset),
    {
        let mut config = self;
        if let Outcome::Probit(_) = config.outcome {
            config.outcome = Outcome::Probit(ProbitParams { offset: Some(offset) });
        }
        config
    }

    /// Cell-value prior spread k, both slots.
    pub fn with_k(self, k: Float) -> (r: Self)
        ensures
            r == with_k_spec(self, k),
    {
        let mut config = self;
        config.mean_params.k = k;
        config.variance_params.k = k;
        config
    }

    /// Cell-count prior rate lambda_c, both slots.
    pub fn with_lambda_c(self, lambda_c: Float) -> (r: Self)
        ensures
            r == with_lambda_c_spec(self, lambda_c),
    {
        let mut config = self;
        config.mean_params.lambda_c = lambda_c;
        config.variance_params.lambda_c = lambda_c;
        config
    }

    /// Centre-coordinate standard deviation sigma_c, both slots.
    pub fn with_sigma_c(self, sigma_c: Float) -> (r: Self)
        ensures
            r == with_sigma_c_spec(self, sigma_c),
    {
        let mut config = self;
        config.mean_params.geometry.sigma_c = sigma_c;
        config.variance_params.geometry.sigma_c = sigma_c;
        config
    }

    /// The metric of each covariate column, both slots.
    pub fn with_metric(self, metric: Vec<Metric>) -> (r: Self)
        ensures
            r.mean_params.geometry.metric@ == metric@,
            r.variance_params.geometry.metric@ == metric@,
            r.outcome == self.outcome,
            r.general_params == self.general_params,
            r.mean_params.tessellations == self.mean_params.tessellations,
            r.mean_params.k == self.mean_params.k,
            r.mean_params.lambda_c == self.mean_params.lambda_c,
            r.mean_params.structure == self.mean_params.structure,
            r.mean_params.cell == self.mean_params.cell,
            r.mean_params.geometry.sigma_c == self.mean_params.geometry.sigma_c,
            r.mean_params.geometry.membership == self.mean_params.geometry.membership,
            r.mean_params.geometry.precision == self.mean_params.geometry.precision,
            r.variance_params.tessellations == self.variance_params.tessellations,
            r.variance_params.k == self.variance_params.k,
            r.variance_params.lambda_c == self.variance_params.lambda_c,
            r.variance_params.structure == self.variance_params.structure,
            r.variance_params.cell == self.variance_params.cell,
            r.variance_params.geometry.sigma_c == self.variance_params.geometry.sigma_c,
            r.variance_params.geometry.membership == self.variance_params.geometry.membership,
            r.variance_params.geometry.precision == self.variance_params.geometry.precision,
    {
        let mut copy: Vec<Metric> = Vec::new();
        let mut i: usize = 0;
        while i < metric.len()
            invariant
                i <= metric.len(),
                copy@ == metric@.subrange(0, i as int),
            decreases metric.len() - i,
        {
            copy.push(metric[i]);
            i = i + 1;
            assert(copy@ =~= metric@.subrange(0, i as int));
        }
        assert(copy@ =~= metric@);
        let mut config = self;
        config.mean_params.geometry.metric = copy;
        config.variance_params.geometry.metric = metric;
        config
    }

    /// Dimension-count prior parameter omega, both slots.
    pub fn with_omega(self, omega: Float) -> (r: Self)
        ensures
            r == with_omega_spec(self, omega),
    {
        let mut config = self;
        config.mean_params.structure.omega = Some(omega);
        config.variance_params.structure.omega = Some(omega);
        config
    }

    /// Burn-in sweeps.
    pub fn with_burn_in(self, burn_in: usize) -> (r: Self)
        ensures
            r == (Config { general_params: GeneralParams { burn_in, ..self.general_params }, ..self }),
    {
        let mut config = self;
        config.general_params.burn_in = burn_in;
        config
    }

    /// Posterior draws kept.
    pub fn with_draws(self, draws: usize) -> (r: Self)
        ensures
            r == (Config { general_params: GeneralParams { draws, ..self.general_params }, ..self }),
    {
        let mut config = self;
        config.general_params.draws = draws;
        config
    }

    /// Thinning interval.
    pub fn with_thinning(self, thinning: usize) -> (r: Self)
        ensures
            r == (Config { general_params: GeneralParams { thinning, ..self.general_params }, ..self }),
    {
        let mut config = self;
        config.general_params.thinning = thinning;
        config
    }

    /// Prior-only sampling.
    pub fn with_prior_only(self, prior_only: bool) -> (r: Self)
        ensures
            r == (Config {
                general_params: GeneralParams { prior_only, ..self.general_params },
                ..self
            }),
    {
        let mut config = self;
        config.general_params.prior_only = prior_only;
        config
    }

    /// The fitted model's name: the outcome's, or "heteroscedastic" for the
    /// Gaussian outcome with a variance ensemble attached.
    ///
    /// An outcome this build gates has no name; [`validate`](Self::validate)
    /// reports it first.
    pub fn model_name(&self) -> (r: &'static str)
        requires
            !(self.outcome is Gated),
        ensures
            r@ == model_name_of(*self),
    {
        match self.outcome {
            Outcome::Probit(_) => "probit",
            Outcome::Gaussian(_) => if self.variance_tessellations() == 0 {
                "gaussian"
            } else {
                "heteroscedastic"
            },
            Outcome::Gated(gated) => {
                assert(false);
                gated.unreachable();
                "gaussian"
            },
        }
    }

    /// The mean-ensemble size in force: the field, or 200.
    pub fn mean_tessellations(&self) -> (r: usize)
        ensures
            r == mean_count(self.mean_params),
    {
        self.mean_params.mean_tessellations()
    }

    /// The variance-ensemble size in force: the field, or 0.
    pub fn variance_tessellations(&self) -> (r: usize)
        ensures
            r == variance_count(self.variance_params),
    {
        self.variance_params.variance_tessellations()
    }

    /// The offset c, where the outcome has one (the probit model).
    pub fn offset(&self) -> (r: Option<Float>)
        ensures
            r == offset_of(self.outcome),
    {
        match self.outcome {
            Outcome::Probit(params) => params.offset,
            _ => None,
        }
    }

    /// The resolved offset, written back at fit; no effect under an
    /// outcome without one.
    pub fn set_offset(&mut self, offset: Float)
        ensures
            *final(self) == with_offset_spec(*old(self), offset),
    {
        if let Outcome::Probit(_) = self.outcome {
            self.outcome = Outcome::Probit(ProbitParams { offset: Some(offset) });
        }
    }

    /// The sigma^2 prior (nu, q) of an outcome that samples one; the
    /// defaults where the outcome carries no sigma^2 prior.
    pub fn sigma2_prior(&self) -> (r: (Float, Float))
        requires
            !(self.outcome is Gated),
        ensures
            r == sigma2_prior_of(self.outcome),
    {
        match self.outcome {
            Outcome::Gaussian(params) => (params.nu, params.q),
            Outcome::Probit(_) => {
                let defaults = GaussianParams::default();
                (defaults.nu, defaults.q)
            },
            Outcome::Gated(gated) => {
                assert(false);
                gated.unreachable();
                let defaults = GaussianParams::default();
                (defaults.nu, defaults.q)
            },
        }
    }

    /// The omega in force for p covariates: the mean slot's field, or
    /// min(3, p).
    pub fn omega_for(&self, p: usize) -> (r: Float)
        ensures
            r == (match self.mean_params.structure.omega {
                Some(omega) => omega,
                None => default_omega(p),
            }),
    {
        match self.mean_params.structure.omega {
            Some(omega) => omega,
            None => if p >= 3 {
                Float { bits: THREE_BITS }
            } else if p == 2 {
                Float { bits: TWO_BITS }
            } else if p == 1 {
                Float { bits: ONE_BITS }
            } else {
                Float { bits: ZERO_BITS }
            },
        }
    }

    /// The first value this build gates, if any: the outcome, then each
    /// term group's metric entries, membership, precision, inclusion prior
    /// and cell basis.
    pub fn gated(&self) -> (r: Option<Gated>)
        ensures
            r == config_gated(*self),
    {
        if let Outcome::Gated(gated) = self.outcome {
            return Some(gated);
        }
        if let Some(gated) = term_gated_value(&self.mean_params) {
            return Some(gated);
        }
        term_gated_value(&self.variance_params)
    }

    /// The resolved counts and omega, written back at fit.
    pub fn resolve(&mut self, omega: Float)
        ensures
            *final(self) == resolved(*old(self), omega),
    {
        self.mean_params.tessellations = Some(self.mean_params.mean_tessellations());
        self.variance_params.tessellations = Some(self.variance_params.variance_tessellations());
        self.mean_params.structure.omega = Some(omega);
        self.variance_params.structure.omega = Some(omega);
    }

    /// Data-free validation of every field in force.
    ///
    /// `RequiresFeature` naming the first value this build gates;
    /// `InvalidHyperparameter` naming the field. The rules that need the
    /// design's column count (omega <= p, and a `metric` entry for every
    /// column) are not among these: this library does not hold the design.
    pub fn validate(&self) -> (r: Result<(), Error>)
        ensures
            r == validation(*self),
    {
        if let Some(gated) = self.gated() {
            return Err(gated.requires_feature());
        }
        if self.mean_tessellations() < 1 {
            return Err(
                Error::InvalidHyperparameter {
                    name: Field::MeanTessellations,
                    reason: Reason::AtLeastOne,
                },
            );
        }
        validate_term(Slot::Mean, &self.mean_params)?;
        match self.outcome {
            Outcome::Gaussian(params) => {
                positive(Field::Nu, params.nu)?;
                let zero = Float { bits: ZERO_BITS };
                let one = Float { bits: ONE_BITS };
                if !(params.q.is_finite() && zero.is_below(params.q) && params.q.is_below(one)) {
                    return Err(
                        Error::InvalidHyperparameter {
                            name: Field::Q,
                            reason: Reason::OutsideUnitInterval(params.q),
                        },
                    );
                }
            },
            Outcome::Probit(params) => {
                if let Some(c) = params.offset {
                    if !c.is_finite() {
                        return Err(
                            Error::InvalidHyperparameter {
                                name: Field::Offset,
                                reason: Reason::NotFinite(c),
                            },
                        );
                    }
                }
            },
            Outcome::Gated(gated) => {
                assert(false);
                gated.unreachable()
            },
        }
        let m_var = self.variance_tessellations();
        if m_var > 0 {
            if !self.outcome.sigma2_mode().permits_variance_ensemble() {
                return Err(
                    Error::InvalidHyperparameter {
                        name: Field::VarianceTessellations,
                        reason: Reason::ScaleNotSampled,
                    },
                );
            }
            let (nu, _) = self.sigma2_prior();
            if nu.is_at_most(Float { bits: TWO_BITS }) {
                return Err(
                    Error::InvalidHyperparameter { name: Field::Nu, reason: Reason::NotAboveTwo(nu) },
                );
            }
            validate_term(Slot::Variance, &self.variance_params)?;
            if !self.variance_params.geometry.same_as(&self.mean_params.geometry) {
                return Err(
                    Error::InvalidHyperparameter {
                        name: Field::VarianceGeometry,
                        reason: Reason::GeometryDiffers,
                    },
                );
            }
            if !self.variance_params.structure.same_as(&self.mean_params.structure) {
                return Err(
                    Error::InvalidHyperparameter {
                        name: Field::VarianceStructure,
                        reason: Reason::StructureDiffers,
                    },
                );
            }
        }
        if self.general_params.draws < 1 {
            return Err(Error::InvalidHyperparameter { name: Field::Draws, reason: Reason::AtLeastOne });
        }
        if self.general_params.thinning < 1 {
            return Err(
                Error::InvalidHyperparameter { name: Field::Thinning, reason: Reason::AtLeastOne },
            );
        }
        Ok(())
    }
}

/// The parsed shape of a configuration: the four groups, and for each
/// field name of the flat shape that the groups replaced, whether the input
/// carried it.
#[derive(Clone, Debug)]
pub struct ConfigParts {
    /// The observation model.
    pub outcome: Outcome,
    /// The ensemble describing the average.
    pub mean_params: TermParams,
    /// The ensemble describing the spread.
    pub variance_params: TermParams,
    /// The sweep schedule.
    pub general_params: GeneralParams,
    /// The input carried `model`.
    pub legacy_model: bool,
    /// The input carried `m`.
    pub legacy_m: bool,
    /// The input carried `nu`.
    pub legacy_nu: bool,
    /// The input carried `q`.
    pub legacy_q: bool,
    /// The input carried `k`.
    pub legacy_k: bool,
    /// The input carried `sigma_c`.
    pub legacy_sigma_c: bool,
    /// The input carried `omega`.
    pub legacy_omega: bool,
    /// The input carried `lambda_c`.
    pub legacy_lambda_c: bool,
    /// The input carried `burn_in`.
    pub legacy_burn_in: bool,
    /// The input carried `draws`.
    pub legacy_draws: bool,
    /// The input carried `thinning`.
    pub legacy_thinning: bool,
    /// The input carried `prior_only`.
    pub legacy_prior_only: bool,
    /// The input carried `offset`.
    pub legacy_offset: bool,
    /// The input carried `m_var`.
    pub legacy_m_var: bool,
    /// The input carried `metric`.
    pub legacy_metric: bool,
}

/// The input carried a field of the flat shape.
pub open spec fn has_legacy_field(parts: ConfigParts) -> bool {
    ||| parts.legacy_model
    ||| parts.legacy_m
    ||| parts.legacy_nu
    ||| parts.legacy_q
    ||| parts.legacy_k
    ||| parts.legacy_sigma_c
    ||| parts.legacy_omega
    ||| parts.legacy_lambda_c
    ||| parts.legacy_burn_in
    ||| parts.legacy_draws
    ||| parts.legacy_thinning
    ||| parts.legacy_prior_only
    ||| parts.legacy_offset
    ||| parts.legacy_m_var
    ||| parts.legacy_metric
}

/// A flat-shape input is rejected naming the replacement; any other input
/// is the configuration of its four groups.
pub open spec fn config_from_parts(parts: ConfigParts) -> Result<Config, Error> {
    if has_legacy_field(parts) {
        Err(invalid(Field::Model, Reason::FlatConfiguration))
    } else {
        Ok(
            Config {
                outcome: parts.outcome,
                mean_params: parts.mean_params,
                variance_params: parts.variance_params,
                general_params: parts.general_params,
            },
        )
    }
}

impl TryFrom<ConfigParts> for Config {
    type Error = Error;

    fn try_from(parts: ConfigParts) -> (r: Result<Self, Error>) {
        let legacy = parts.legacy_model || parts.legacy_m || parts.legacy_nu || parts.legacy_q
            || parts.legacy_k || parts.legacy_sigma_c || parts.legacy_omega
            || parts.legacy_lambda_c || parts.legacy_burn_in || parts.legacy_draws
            || parts.legacy_thinning || parts.legacy_prior_only || parts.legacy_offset
            || parts.legacy_m_var || parts.legacy_metric;
        if legacy {
            return Err(
                Error::InvalidHyperparameter { name: Field::Model, reason: Reason::FlatConfiguration },
            );
        }
        Ok(
            Config {
                outcome: parts.outcome,
                mean_params: parts.mean_params,
                variance_params: parts.variance_params,
                general_params: parts.general_params,
            },
        )
    }
}

impl vstd::std_specs::convert::TryFromSpecImpl<ConfigParts> for Config {
    open spec fn obeys_try_from_spec() -> bool {
        true
    }

    open spec fn try_from_spec(v: ConfigParts) -> Result<Self, Error> {
        config_from_parts(v)
    }
}

} // verus!
