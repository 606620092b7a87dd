//! The observation model (`Outcome`) and its own parameters, and the
//! items this build gates behind the `experimental` feature.

use vstd::prelude::*;

use crate::error::Error;
use crate::float::{Float, ONE_BITS};

verus! {

/// The pattern of 6.0, the default sigma^2 prior degrees of freedom.
pub const DEFAULT_NU_BITS: u64 = 0x4018_0000_0000_0000;

/// The pattern of 0.85, the default sigma^2 prior calibration quantile.
pub const DEFAULT_Q_BITS: u64 = 0x3FEB_3333_3333_3333;

/// A configuration value that this build gates behind the `experimental`
/// feature.
#[derive(Clone, Copy, Debug, PartialEq, Eq, Structural)]
pub enum GatedItem {
    /// The tobit outcome.
    TobitOutcome,
    /// The accelerated failure time outcome.
    AftOutcome,
    /// The interval-censored outcome.
    IntervalCensoredOutcome,
    /// The ordinal outcome.
    OrdinalOutcome,
    /// The Student-t outcome.
    StudentTOutcome,
    /// The Laplace outcome.
    LaplaceOutcome,
    /// Soft membership.
    SoftMembership,
    /// Weighted inclusion.
    WeightedInclusion,
    /// DART inclusion.
    DartInclusion,
    /// The linear cell basis.
    LinearBasis,
    /// A Mahalanobis precision matrix.
    Precision,
    /// The Minkowski metric.
    MinkowskiMetric,
    /// The Manhattan metric.
    ManhattanMetric,
    /// The cosine metric.
    CosineMetric,
    /// The Gower metric.
    GowerMetric,
    /// The Mahalanobis metric.
    MahalanobisMetric,
}

/// How a rejection names a gated item.
pub open spec fn gated_item_text(item: GatedItem) -> Seq<char> {
    match item {
        GatedItem::TobitOutcome => "the `tobit` outcome"@,
        GatedItem::AftOutcome => "the `aft` outcome"@,
        GatedItem::IntervalCensoredOutcome => "the `interval_censored` outcome"@,
        GatedItem::OrdinalOutcome => "the `ordinal` outcome"@,
        GatedItem::StudentTOutcome => "the `student_t` outcome"@,
        GatedItem::LaplaceOutcome => "the `laplace` outcome"@,
        GatedItem::SoftMembership => "`soft` membership"@,
        GatedItem::WeightedInclusion => "`weighted` inclusion"@,
        GatedItem::DartInclusion => "`dart` inclusion"@,
        GatedItem::LinearBasis => "the `linear` cell basis"@,
        GatedItem::Precision => "`geometry.precision`"@,
        GatedItem::MinkowskiMetric => "the `minkowski` metric"@,
        GatedItem::ManhattanMetric => "the `manhattan` metric"@,
        GatedItem::CosineMetric => "the `cosine` metric"@,
        GatedItem::GowerMetric => "the `gower` metric"@,
        GatedItem::MahalanobisMetric => "the `mahalanobis` metric"@,
    }
}

impl GatedItem {
    /// The item, as a rejection names it.
    pub fn text(self) -> (r: &'static str)
        ensures
            r@ == gated_item_text(self),
    {
        match self {
            GatedItem::TobitOutcome => "the `tobit` outcome",
            GatedItem::AftOutcome => "the `aft` outcome",
            GatedItem::IntervalCensoredOutcome => "the `interval_censored` outcome",
            GatedItem::OrdinalOutcome => "the `ordinal` outcome",
            GatedItem::StudentTOutcome => "the `student_t` outcome",
            GatedItem::LaplaceOutcome => "the `laplace` outcome",
            GatedItem::SoftMembership => "`soft` membership",
            GatedItem::WeightedInclusion => "`weighted` inclusion",
            GatedItem::DartInclusion => "`dart` inclusion",
            GatedItem::LinearBasis => "the `linear` cell basis",
            GatedItem::Precision => "`geometry.precision`",
            GatedItem::MinkowskiMetric => "the `minkowski` metric",
            GatedItem::ManhattanMetric => "the `manhattan` metric",
            GatedItem::CosineMetric => "the `cosine` metric",
            GatedItem::GowerMetric => "the `gower` metric",
            GatedItem::MahalanobisMetric => "the `mahalanobis` metric",
        }
    }
}

/// A configuration value this build gates, carried from the parsed input
/// to [`Config::validate`](crate::Config::validate), which reports it as
/// [`Error::RequiresFeature`]. A configuration holding one does not pass
/// validation.
#[derive(Clone, Copy, Debug, PartialEq, Eq, Structural)]
pub struct Gated(pub GatedItem);

impl Gated {
    /// The rejection naming this item and the feature it needs.
    pub fn requires_feature(self) -> (e: Error)
        ensures
            e == (Error::RequiresFeature { item: self }),
    {
        Error::RequiresFeature { item: self }
    }

    /// The arm of a match on a gated value past validation, which rejects
    /// every gated value. Each call stands after an `assert(false)` that
    /// Verus proves, so no run reaches it: in `Config::validate` the
    /// `gated()` check has already returned, and elsewhere the precondition
    /// excludes a gated outcome. It does nothing, and it is not part of the
    /// public surface.
    pub(crate) fn unreachable(self) {
    }
}

/// The Gaussian outcome's parameters: the sigma^2 prior.
#[derive(Clone, Copy, Debug, PartialEq)]
pub struct GaussianParams {
    /// sigma^2 prior degrees of freedom nu. Default 6. A variance ensemble
    /// requires nu > 2.
    pub nu: Float,
    /// sigma^2 prior calibration quantile q, Pr(sigma < sigma_hat) = q.
    /// Default 0.85.
    pub q: Float,
}

/// The Gaussian parameters' defaults: nu = 6, q = 0.85.
pub open spec fn gaussian_defaults() -> GaussianParams {
    GaussianParams { nu: Float { bits: DEFAULT_NU_BITS }, q: Float { bits: DEFAULT_Q_BITS } }
}

impl Default for GaussianParams {
    fn default() -> (r: Self)
        ensures
            r == gaussian_defaults(),
    {
        GaussianParams { nu: Float { bits: DEFAULT_NU_BITS }, q: Float { bits: DEFAULT_Q_BITS } }
    }
}

/// The probit outcome's parameters.
#[derive(Clone, Copy, Debug, PartialEq)]
pub struct ProbitParams {
    /// The offset c in P(y = 1 | x) = Phi(c + f(x)); `None` resolves from
    /// the data at fit. Default `None`.
    pub offset: Option<Float>,
}

impl Default for ProbitParams {
    fn default() -> (r: Self)
        ensures
            r == (ProbitParams { offset: None }),
    {
        ProbitParams { offset: None }
    }
}

/// What an outcome does with sigma^2.
#[derive(Clone, Copy, Debug, PartialEq)]
pub enum Sigma2Mode {
    /// sigma^2 is drawn from its conditional.
    Sampled,
    /// The scale is fixed at the value (a latent scale).
    Fixed(Float),
    /// The outcome has no scale.
    Absent,
}

impl Sigma2Mode {
    /// A variance ensemble may attach exactly where sigma^2 is sampled.
    pub fn permits_variance_ensemble(self) -> (r: bool)
        ensures
            r == (self is Sampled),
    {
        match self {
            Sigma2Mode::Sampled => true,
            _ => false,
        }
    }

    /// A global sigma^2 is drawn, and so can be recorded, exactly where it
    /// is sampled.
    pub fn samples_global_sigma_sq(self) -> (r: bool)
        ensures
            r == (self is Sampled),
    {
        match self {
            Sigma2Mode::Sampled => true,
            _ => false,
        }
    }
}

/// The response contract an outcome imposes at fit.
#[derive(Clone, Copy, Debug, PartialEq, Eq, Structural)]
pub enum RequiredData {
    /// Any finite values.
    Continuous,
    /// Labels in {0, 1}.
    Binary,
    /// Integer codes of ordered categories.
    Ordinal,
}

/// The observation model and its own parameters, including the sigma^2
/// settings. Validity is derived from the outcome's scale mode: a variance
/// ensemble may attach exactly where sigma^2 is sampled.
#[derive(Clone, Copy, Debug, PartialEq)]
pub enum Outcome {
    /// y = f(x) + e, e ~ N(0, sigma^2); with a variance ensemble the
    /// spread is its product s^2(x) (H-AddiVortes).
    Gaussian(GaussianParams),
    /// y in {0, 1} with P(y = 1 | x) = Phi(c + f(x)) (Binary AddiVortes).
    Probit(ProbitParams),
    /// An outcome this build gates; validation reports it.
    Gated(Gated),
}

/// The Gaussian outcome at its defaults.
pub open spec fn gaussian_outcome() -> Outcome {
    Outcome::Gaussian(gaussian_defaults())
}

/// The probit outcome at its defaults.
pub open spec fn probit_outcome() -> Outcome {
    Outcome::Probit(ProbitParams { offset: None })
}

/// The scale mode of an outcome this build carries.
pub open spec fn outcome_sigma2_mode(outcome: Outcome) -> Sigma2Mode {
    match outcome {
        Outcome::Probit(_) => Sigma2Mode::Fixed(Float { bits: ONE_BITS }),
        _ => Sigma2Mode::Sampled,
    }
}

impl Default for Outcome {
    fn default() -> (r: Self)
        ensures
            r == gaussian_outcome(),
    {
        Outcome::Gaussian(GaussianParams::default())
    }
}

impl Outcome {
    /// The Gaussian outcome with its default sigma^2 prior.
    pub fn gaussian() -> (r: Self)
        ensures
            r == gaussian_outcome(),
    {
        Outcome::Gaussian(GaussianParams::default())
    }

    /// The probit outcome with the offset resolved from the data at fit.
    pub fn probit() -> (r: Self)
        ensures
            r == probit_outcome(),
    {
        Outcome::Probit(ProbitParams::default())
    }

    /// Every outcome family this build carries, at its defaults.
    pub fn catalogue() -> (r: Vec<Self>)
        ensures
            r@ == seq![gaussian_outcome(), probit_outcome()],
    {
        let mut families = Vec::new();
        families.push(Outcome::gaussian());
        families.push(Outcome::probit());
        families
    }

    /// What the outcome does with sigma^2: sampled under the Gaussian
    /// model, fixed at 1 under the probit model.
    pub fn sigma2_mode(&self) -> (r: Sigma2Mode)
        requires
            !(self is Gated),
        ensures
            r == outcome_sigma2_mode(*self),
    {
        match self {
            Outcome::Gaussian(_) => Sigma2Mode::Sampled,
            Outcome::Probit(_) => Sigma2Mode::Fixed(Float { bits: ONE_BITS }),
            Outcome::Gated(gated) => {
                assert(false);
                gated.unreachable();
                Sigma2Mode::Absent
            },
        }
    }

    /// The response contract the outcome imposes at fit.
    pub fn required_data(&self) -> (r: RequiredData)
        requires
            !(self is Gated),
        ensures
            r == (match *self {
                Outcome::Probit(_) => RequiredData::Binary,
                _ => RequiredData::Continuous,
            }),
    {
        match self {
            Outcome::Gaussian(_) => RequiredData::Continuous,
            Outcome::Probit(_) => RequiredData::Binary,
            Outcome::Gated(gated) => {
                assert(false);
                gated.unreachable();
                RequiredData::Continuous
            },
        }
    }
}

/// The outcome names a parsed configuration may carry: the families this
/// build has, with their parameters, and the gated ones by name alone.
#[derive(Clone, Copy, Debug, PartialEq)]
pub enum StableOutcome {
    /// `gaussian`
    Gaussian(GaussianParams),
    /// `probit`
    Probit(ProbitParams),
    /// `tobit`
    Tobit,
    /// `aft`
    Aft,
    /// `interval_censored`
    IntervalCensored,
    /// `ordinal`
    Ordinal,
    /// `student_t`
    StudentT,
    /// `laplace`
    Laplace,
}

/// The outcome a parsed name stands for: a gated name becomes the gated
/// value that validation reports.
pub open spec fn outcome_from_stable(outcome: StableOutcome) -> Outcome {
    match outcome {
        StableOutcome::Gaussian(params) => Outcome::Gaussian(params),
        StableOutcome::Probit(params) => Outcome::Probit(params),
        StableOutcome::Tobit => Outcome::Gated(Gated(GatedItem::TobitOutcome)),
        StableOutcome::Aft => Outcome::Gated(Gated(GatedItem::AftOutcome)),
        StableOutcome::IntervalCensored => Outcome::Gated(Gated(GatedItem::IntervalCensoredOutcome)),
        StableOutcome::Ordinal => Outcome::Gated(Gated(GatedItem::OrdinalOutcome)),
        StableOutcome::StudentT => Outcome::Gated(Gated(GatedItem::StudentTOutcome)),
        StableOutcome::Laplace => Outcome::Gated(Gated(GatedItem::LaplaceOutcome)),
    }
}

impl From<StableOutcome> for Outcome {
    fn from(outcome: StableOutcome) -> (r: Self) {
        match outcome {
            StableOutcome::Gaussian(params) => Outcome::Gaussian(params),
            StableOutcome::Probit(params) => Outcome::Probit(params),
            StableOutcome::Tobit => Outcome::Gated(Gated(GatedItem::TobitOutcome)),
            StableOutcome::Aft => Outcome::Gated(Gated(GatedItem::AftOutcome)),
            StableOutcome::IntervalCensored => Outcome::Gated(Gated(GatedItem::IntervalCensoredOutcome)),
            StableOutcome::Ordinal => Outcome::Gated(Gated(GatedItem::OrdinalOutcome)),
            StableOutcome::StudentT => Outcome::Gated(Gated(GatedItem::StudentTOutcome)),
            StableOutcome::Laplace => Outcome::Gated(Gated(GatedItem::LaplaceOutcome)),
        }
    }
}

impl vstd::std_specs::convert::FromSpecImpl<StableOutcome> for Outcome {
    open spec fn obeys_from_spec() -> bool {
        true
    }

    open spec fn from_spec(v: StableOutcome) -> Self {
        outcome_from_stable(v)
    }
}

} // verus!
