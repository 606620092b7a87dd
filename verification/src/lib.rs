//! Configuration of Bayesian additive Voronoi tessellations (AddiVortes;
//! Stone and Gosling 2025): the outcome model (Gaussian, probit, and the
//! heteroscedastic model as the Gaussian one with a variance ensemble),
//! one term group per ensemble, the sweep schedule, the data-free
//! validation of every field in force, and the checks the sampler makes
//! on what a caller hands it.
//!
//! This build carries the published models and components only; an item
//! gated behind the `experimental` feature is carried from parsing to
//! [`Config::validate`], which rejects it with [`Error::RequiresFeature`].
//!
//! Real-valued hyperparameters are [`Float`]s: the IEEE 754 bit pattern of
//! the `f64` the caller wrote, so that every rule on them is an exact
//! statement.

pub mod boundary;
pub mod config;
pub mod error;
pub mod float;
pub mod laws;
pub mod outcome;
pub mod schedule;
pub mod terms;

pub use boundary::{check_pinned_prior, check_response, first_invalid_label, first_non_finite};
pub use config::{Config, ConfigParts, Slot};
pub use error::{Error, Field, Reason};
pub use float::Float;
pub use schedule::{check_kept, next_action, noise_update, records_sigma_sq, Action, NoiseUpdate, SigmaSqDraw};
pub use outcome::{
    GatedItem, Gated, GaussianParams, Outcome, ProbitParams, RequiredData, Sigma2Mode,
    StableOutcome,
};
pub use terms::{
    Basis, CellParams, GeneralParams, GeometryParams, Inclusion, Membership, Metric,
    StableBasis, StableInclusion, StableMembership, StructureParams, TermParams,
};
