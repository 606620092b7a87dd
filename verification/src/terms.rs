//! One term group (the ensemble describing the average or the spread):
//! its size, priors, covariate geometry, structure and cell basis; and the
//! sweep schedule.

use vstd::prelude::*;

use crate::float::{Float, THREE_BITS};
use crate::outcome::{Gated, GatedItem};

verus! {

/// The pattern of 5.0, the default cell-count prior rate.
pub const DEFAULT_LAMBDA_C_BITS: u64 = 0x4014_0000_0000_0000;

/// The pattern of 0.8, the default centre-coordinate standard deviation.
pub const DEFAULT_SIGMA_C_BITS: u64 = 0x3FE9_9999_9999_999A;

/// The count in force on the mean slot when none is set.
pub const DEFAULT_MEAN_TESSELLATIONS: usize = 200;

/// The metric of one covariate column.
#[derive(Clone, Copy, Debug, PartialEq, Eq, Structural)]
pub enum Metric {
    /// Min-max scaled coordinates under the Euclidean distance.
    Euclidean,
    /// Coordinates in radians on the numbered sphere: its latitudes, then
    /// its longitude.
    Spherical {
        /// Which sphere the column belongs to.
        sphere: usize,
    },
    /// Integer level codes, at distance 0 or 1.
    Categorical,
    /// A metric this build gates; validation reports it.
    Gated(Gated),
}

/// How an observation belongs to a tessellation's cells.
#[derive(Clone, Copy, Debug, PartialEq, Eq, Structural)]
pub enum Membership {
    /// Every observation belongs wholly to its nearest centre, the
    /// published rule. The default.
    Hard,
    /// A membership rule this build gates; validation reports it.
    Gated(Gated),
}

impl Default for Membership {
    fn default() -> (r: Self)
        ensures
            r == Membership::Hard,
    {
        Membership::Hard
    }
}

impl Membership {
    /// Whether this is the default, for compact serialisation.
    pub fn is_hard(&self) -> (r: bool)
        ensures
            r == (*self is Hard),
    {
        match self {
            Membership::Hard => true,
            _ => false,
        }
    }
}

/// The membership names a parsed configuration may carry.
#[derive(Clone, Copy, Debug, PartialEq, Eq, Structural)]
pub enum StableMembership {
    /// `hard`
    Hard,
    /// `soft`, gated.
    Soft,
}

impl From<StableMembership> for Membership {
    fn from(membership: StableMembership) -> (r: Self) {
        match membership {
            StableMembership::Hard => Membership::Hard,
            StableMembership::Soft => Membership::Gated(Gated(GatedItem::SoftMembership)),
        }
    }
}

impl vstd::std_specs::convert::FromSpecImpl<StableMembership> for Membership {
    open spec fn obeys_from_spec() -> bool {
        true
    }

    open spec fn from_spec(v: StableMembership) -> Self {
        match v {
            StableMembership::Hard => Membership::Hard,
            StableMembership::Soft => Membership::Gated(Gated(GatedItem::SoftMembership)),
        }
    }
}

/// The covariate-inclusion prior over the columns of one term group.
#[derive(Clone, Copy, Debug, PartialEq, Eq, Structural)]
pub enum Inclusion {
    /// Dimensions drawn uniformly, the published prior. The default.
    Uniform,
    /// An inclusion prior this build gates; validation reports it.
    Gated(Gated),
}

impl Default for Inclusion {
    fn default() -> (r: Self)
        ensures
            r == Inclusion::Uniform,
    {
        Inclusion::Uniform
    }
}

impl Inclusion {
    /// Whether this is the default, for compact serialisation.
    pub fn is_uniform(&self) -> (r: bool)
        ensures
            r == (*self is Uniform),
    {
        match self {
            Inclusion::Uniform => true,
            _ => false,
        }
    }
}

/// The inclusion names a parsed configuration may carry.
#[derive(Clone, Copy, Debug, PartialEq, Eq, Structural)]
pub enum StableInclusion {
    /// `uniform`
    Uniform,
    /// `weighted`, gated.
    Weighted,
    /// `dart`, gated.
    Dart,
}

impl From<StableInclusion> for Inclusion {
    fn from(inclusion: StableInclusion) -> (r: Self) {
        match inclusion {
            StableInclusion::Uniform => Inclusion::Uniform,
            StableInclusion::Weighted => Inclusion::Gated(Gated(GatedItem::WeightedInclusion)),
            StableInclusion::Dart => Inclusion::Gated(Gated(GatedItem::DartInclusion)),
        }
    }
}

impl vstd::std_specs::convert::FromSpecImpl<StableInclusion> for Inclusion {
    open spec fn obeys_from_spec() -> bool {
        true
    }

    open spec fn from_spec(v: StableInclusion) -> Self {
        match v {
            StableInclusion::Uniform => Inclusion::Uniform,
            StableInclusion::Weighted => Inclusion::Gated(Gated(GatedItem::WeightedInclusion)),
            StableInclusion::Dart => Inclusion::Gated(Gated(GatedItem::DartInclusion)),
        }
    }
}

/// The within-cell response surface of one term group.
#[derive(Clone, Copy, Debug, PartialEq, Eq, Structural)]
pub enum Basis {
    /// One value per cell, the published model. The default.
    Constant,
    /// A cell basis this build gates; validation reports it.
    Gated(Gated),
}

impl Default for Basis {
    fn default() -> (r: Self)
        ensures
            r == Basis::Constant,
    {
        Basis::Constant
    }
}

impl Basis {
    /// Whether this is the default, for compact serialisation.
    pub fn is_constant(&self) -> (r: bool)
        ensures
            r == (*self is Constant),
    {
        match self {
            Basis::Constant => true,
            _ => false,
        }
    }
}

/// The basis names a parsed configuration may carry.
#[derive(Clone, Copy, Debug, PartialEq, Eq, Structural)]
pub enum StableBasis {
    /// `constant`
    Constant,
    /// `linear`, gated.
    Linear,
}

impl From<StableBasis> for Basis {
    fn from(basis: StableBasis) -> (r: Self) {
        match basis {
            StableBasis::Constant => Basis::Constant,
            StableBasis::Linear => Basis::Gated(Gated(GatedItem::LinearBasis)),
        }
    }
}

impl vstd::std_specs::convert::FromSpecImpl<StableBasis> for Basis {
    open spec fn obeys_from_spec() -> bool {
        true
    }

    open spec fn from_spec(v: StableBasis) -> Self {
        match v {
            StableBasis::Constant => Basis::Constant,
            StableBasis::Linear => Basis::Gated(Gated(GatedItem::LinearBasis)),
        }
    }
}

/// The covariate space of one term group.
#[derive(Clone, Debug, PartialEq)]
pub struct GeometryParams {
    /// The metric of each covariate column, in column order; empty, the
    /// default, is Euclidean on every column.
    pub metric: Vec<Metric>,
    /// Centre-coordinate prior and proposal standard deviation sigma_c
    /// (scaled space). Default 0.8.
    pub sigma_c: Float,
    /// How an observation belongs to a tessellation's cells. Default hard.
    pub membership: Membership,
    /// The precision matrix of the Mahalanobis metric, row-major; any
    /// value is gated in this build.
    pub precision: Option<Vec<Float>>,
}

/// The geometry defaults: no metric entries, sigma_c = 0.8, hard
/// membership, no precision.
pub open spec fn geometry_is_default(g: GeometryParams) -> bool {
    &&& g.metric@.len() == 0
    &&& g.sigma_c == Float { bits: DEFAULT_SIGMA_C_BITS }
    &&& g.membership == Membership::Hard
    &&& g.precision is None
}

impl Default for GeometryParams {
    fn default() -> (r: Self)
        ensures
            geometry_is_default(r),
    {
        GeometryParams {
            metric: Vec::new(),
            sigma_c: Float { bits: DEFAULT_SIGMA_C_BITS },
            membership: Membership::Hard,
            precision: None,
        }
    }
}

/// Two optional reals compare equal as `Option<f64>` does.
pub open spec fn same_optional_value(a: Option<Float>, b: Option<Float>) -> bool {
    match (a, b) {
        (None, None) => true,
        (Some(x), Some(y)) => x.same_value(y),
        _ => false,
    }
}

/// Two real sequences compare equal as `Vec<f64>` does.
pub open spec fn same_values(a: Seq<Float>, b: Seq<Float>) -> bool {
    &&& a.len() == b.len()
    &&& forall|i: int| 0 <= i < a.len() ==> (#[trigger] a[i]).same_value(b[i])
}

/// Two geometries compare equal as the derived `==` of their fields does,
/// reals by their values.
pub open spec fn same_geometry(a: GeometryParams, b: GeometryParams) -> bool {
    &&& a.metric@ == b.metric@
    &&& a.sigma_c.same_value(b.sigma_c)
    &&& a.membership == b.membership
    &&& match (a.precision, b.precision) {
        (None, None) => true,
        (Some(p), Some(r)) => same_values(p@, r@),
        _ => false,
    }
}

/// `a == b` on two real vectors.
fn values_equal(a: &Vec<Float>, b: &Vec<Float>) -> (r: bool)
    ensures
        r == same_values(a@, b@),
{
    if a.len() != b.len() {
        return false;
    }
    let mut i: usize = 0;
    while i < a.len()
        invariant
            a.len() == b.len(),
            i <= a.len(),
            forall|j: int| 0 <= j < i ==> (#[trigger] a@[j]).same_value(b@[j]),
        decreases a.len() - i,
    {
        if !a[i].is_same_value(b[i]) {
            return false;
        }
        i = i + 1;
    }
    true
}

/// `a == b` on two metric lists.
fn metrics_equal(a: &Vec<Metric>, b: &Vec<Metric>) -> (r: bool)
    ensures
        r == (a@ == b@),
{
    if a.len() != b.len() {
        return false;
    }
    let mut i: usize = 0;
    while i < a.len()
        invariant
            a.len() == b.len(),
            i <= a.len(),
            forall|j: int| 0 <= j < i ==> a@[j] == b@[j],
        decreases a.len() - i,
    {
        if a[i] != b[i] {
            return false;
        }
        i = i + 1;
    }
    assert(a@ =~= b@);
    true
}

impl GeometryParams {
    /// `self == other`, as the derived equality compares two geometries.
    pub fn same_as(&self, other: &GeometryParams) -> (r: bool)
        ensures
            r == same_geometry(*self, *other),
    {
        if !metrics_equal(&self.metric, &other.metric) {
            return false;
        }
        if !self.sigma_c.is_same_value(other.sigma_c) {
            return false;
        }
        if self.membership != other.membership {
            return false;
        }
        match (&self.precision, &other.precision) {
            (None, None) => true,
            (Some(p), Some(r)) => values_equal(p, r),
            _ => false,
        }
    }
}

/// The covariate-inclusion prior of one term group.
#[derive(Clone, Copy, Debug, PartialEq)]
pub struct StructureParams {
    /// The covariate-inclusion prior. Default uniform.
    pub inclusion: Inclusion,
    /// Dimension-count prior parameter omega; `None` resolves to min(3, p)
    /// at fit. Must satisfy 0 < omega <= p.
    pub omega: Option<Float>,
}

impl Default for StructureParams {
    fn default() -> (r: Self)
        ensures
            r == (StructureParams { inclusion: Inclusion::Uniform, omega: None }),
    {
        StructureParams { inclusion: Inclusion::Uniform, omega: None }
    }
}

/// Two structures compare equal as the derived `==` does, omega by value.
pub open spec fn same_structure(a: StructureParams, b: StructureParams) -> bool {
    a.inclusion == b.inclusion && same_optional_value(a.omega, b.omega)
}

impl StructureParams {
    /// `self == other`, as the derived equality compares two structures.
    pub fn same_as(&self, other: &StructureParams) -> (r: bool)
        ensures
            r == same_structure(*self, *other),
    {
        if self.inclusion != other.inclusion {
            return false;
        }
        match (self.omega, other.omega) {
            (None, None) => true,
            (Some(x), Some(y)) => x.is_same_value(y),
            _ => false,
        }
    }
}

/// The within-cell response surface of one term group.
#[derive(Clone, Copy, Debug, PartialEq, Eq, Structural)]
pub struct CellParams {
    /// The within-cell response surface. Default constant.
    pub basis: Basis,
}

impl Default for CellParams {
    fn default() -> (r: Self)
        ensures
            r == (CellParams { basis: Basis::Constant }),
    {
        CellParams { basis: Basis::Constant }
    }
}

/// One term group: the ensemble describing the average (`mean_params`) or
/// the spread (`variance_params`).
#[derive(Clone, Debug, PartialEq)]
pub struct TermParams {
    /// Number of tessellations; `None` resolves to 200 on the mean slot
    /// and to 0 on the variance slot.
    pub tessellations: Option<usize>,
    /// Cell-value prior spread k. Default 3.
    pub k: Float,
    /// Cell-count prior rate lambda_c. Default 5.
    pub lambda_c: Float,
    /// The covariate space.
    pub geometry: GeometryParams,
    /// Which covariates a tessellation may use.
    pub structure: StructureParams,
    /// The within-cell response surface.
    pub cell: CellParams,
}

/// The term-group defaults: no count, k = 3, lambda_c = 5, and the
/// defaults of each group.
pub open spec fn term_is_default(t: TermParams) -> bool {
    &&& t.tessellations is None
    &&& t.k == Float { bits: THREE_BITS }
    &&& t.lambda_c == Float { bits: DEFAULT_LAMBDA_C_BITS }
    &&& geometry_is_default(t.geometry)
    &&& t.structure == StructureParams { inclusion: Inclusion::Uniform, omega: None }
    &&& t.cell == CellParams { basis: Basis::Constant }
}

/// The count in force on the mean slot: the field, or 200.
pub open spec fn mean_count(t: TermParams) -> nat {
    match t.tessellations {
        Some(m) => m as nat,
        None => DEFAULT_MEAN_TESSELLATIONS as nat,
    }
}

/// The count in force on the variance slot: the field, or 0.
pub open spec fn variance_count(t: TermParams) -> nat {
    match t.tessellations {
        Some(m) => m as nat,
        None => 0,
    }
}

impl Default for TermParams {
    fn default() -> (r: Self)
        ensures
            term_is_default(r),
    {
        TermParams {
            tessellations: None,
            k: Float { bits: THREE_BITS },
            lambda_c: Float { bits: DEFAULT_LAMBDA_C_BITS },
            geometry: GeometryParams::default(),
            structure: StructureParams::default(),
            cell: CellParams::default(),
        }
    }
}

impl TermParams {
    /// The count in force on the mean slot: the field, or 200.
    pub fn mean_tessellations(&self) -> (r: usize)
        ensures
            r == mean_count(*self),
    {
        match self.tessellations {
            Some(m) => m,
            None => DEFAULT_MEAN_TESSELLATIONS,
        }
    }

    /// The count in force on the variance slot: the field, or 0.
    pub fn variance_tessellations(&self) -> (r: usize)
        ensures
            r == variance_count(*self),
    {
        match self.tessellations {
            Some(m) => m,
            None => 0,
        }
    }
}

/// The sweep schedule and everything that belongs to no ensemble.
#[derive(Clone, Copy, Debug, PartialEq, Eq, Structural)]
pub struct GeneralParams {
    /// Burn-in sweeps discarded by `fit`. Default 200.
    pub burn_in: usize,
    /// Posterior draws kept by `fit`. Default 1000.
    pub draws: usize,
    /// Thinning interval: every `thinning`-th sweep after burn-in is kept.
    /// Default 1.
    pub thinning: usize,
    /// Sample from the prior: the likelihood is switched off. Default
    /// false.
    pub prior_only: bool,
}

/// The schedule defaults: 200 burn-in sweeps, 1000 draws, thinning 1,
/// the likelihood on.
pub open spec fn general_defaults() -> GeneralParams {
    GeneralParams { burn_in: 200, draws: 1000, thinning: 1, prior_only: false }
}

impl Default for GeneralParams {
    fn default() -> (r: Self)
        ensures
            r == general_defaults(),
    {
        GeneralParams { burn_in: 200, draws: 1000, thinning: 1, prior_only: false }
    }
}

} // verus!
