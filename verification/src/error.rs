//! Why a configuration is rejected: the field named, and the rule it
//! breaks, with the offending value where the rule names one.

use vstd::prelude::*;

use crate::float::Float;
use crate::outcome::Gated;

verus! {

/// The hyperparameter a rejection names, by its path in the configuration.
#[derive(Clone, Copy, Debug, PartialEq, Eq, Structural)]
pub enum Field {
    /// `mean_params.tessellations`
    MeanTessellations,
    /// `mean_params.k`
    MeanK,
    /// `mean_params.lambda_c`
    MeanLambdaC,
    /// `mean_params.geometry.sigma_c`
    MeanSigmaC,
    /// `mean_params.structure.omega`
    MeanOmega,
    /// `variance_params.tessellations`
    VarianceTessellations,
    /// `variance_params.k`
    VarianceK,
    /// `variance_params.lambda_c`
    VarianceLambdaC,
    /// `variance_params.geometry.sigma_c`
    VarianceSigmaC,
    /// `variance_params.structure.omega`
    VarianceOmega,
    /// `variance_params.geometry`
    VarianceGeometry,
    /// `variance_params.structure`
    VarianceStructure,
    /// `nu`, the sigma^2 prior degrees of freedom.
    Nu,
    /// `q`, the sigma^2 prior calibration quantile.
    Q,
    /// `offset`, the probit offset.
    Offset,
    /// `draws`
    Draws,
    /// `thinning`
    Thinning,
    /// `model`, the field of the flat configuration.
    Model,
    /// `lambda`, the sigma^2 prior scale given to a pinned prior.
    Lambda,
}

/// The path of a field, as a rejection names it.
pub open spec fn field_name(field: Field) -> Seq<char> {
    match field {
        Field::MeanTessellations => "mean_params.tessellations"@,
        Field::MeanK => "mean_params.k"@,
        Field::MeanLambdaC => "mean_params.lambda_c"@,
        Field::MeanSigmaC => "mean_params.geometry.sigma_c"@,
        Field::MeanOmega => "mean_params.structure.omega"@,
        Field::VarianceTessellations => "variance_params.tessellations"@,
        Field::VarianceK => "variance_params.k"@,
        Field::VarianceLambdaC => "variance_params.lambda_c"@,
        Field::VarianceSigmaC => "variance_params.geometry.sigma_c"@,
        Field::VarianceOmega => "variance_params.structure.omega"@,
        Field::VarianceGeometry => "variance_params.geometry"@,
        Field::VarianceStructure => "variance_params.structure"@,
        Field::Nu => "nu"@,
        Field::Q => "q"@,
        Field::Offset => "offset"@,
        Field::Draws => "draws"@,
        Field::Thinning => "thinning"@,
        Field::Model => "model"@,
        Field::Lambda => "lambda"@,
    }
}

impl Field {
    /// The path of the field, such as `mean_params.k`.
    pub fn name(self) -> (r: &'static str)
        ensures
            r@ == field_name(self),
    {
        match self {
            Field::MeanTessellations => "mean_params.tessellations",
            Field::MeanK => "mean_params.k",
            Field::MeanLambdaC => "mean_params.lambda_c",
            Field::MeanSigmaC => "mean_params.geometry.sigma_c",
            Field::MeanOmega => "mean_params.structure.omega",
            Field::VarianceTessellations => "variance_params.tessellations",
            Field::VarianceK => "variance_params.k",
            Field::VarianceLambdaC => "variance_params.lambda_c",
            Field::VarianceSigmaC => "variance_params.geometry.sigma_c",
            Field::VarianceOmega => "variance_params.structure.omega",
            Field::VarianceGeometry => "variance_params.geometry",
            Field::VarianceStructure => "variance_params.structure",
            Field::Nu => "nu",
            Field::Q => "q",
            Field::Offset => "offset",
            Field::Draws => "draws",
            Field::Thinning => "thinning",
            Field::Model => "model",
            Field::Lambda => "lambda",
        }
    }
}

/// The rule a rejected hyperparameter breaks.
#[derive(Clone, Copy, Debug, PartialEq)]
pub enum Reason {
    /// A count below 1.
    AtLeastOne,
    /// A value that is not finite and positive.
    NotFinitePositive(Float),
    /// A quantile outside the open interval (0, 1).
    OutsideUnitInterval(Float),
    /// A value that is not finite.
    NotFinite(Float),
    /// A variance ensemble under an outcome whose scale is not sampled.
    ScaleNotSampled,
    /// A sigma^2 prior degrees of freedom of 2 or less under a variance
    /// ensemble.
    NotAboveTwo(Float),
    /// Ensembles declaring different geometry.
    GeometryDiffers,
    /// Ensembles declaring different structure.
    StructureDiffers,
    /// A configuration in the flat shape that the grouped one replaced.
    FlatConfiguration,
    /// A model with an offset under a pinned prior, with no offset set.
    OffsetRequired,
    /// A chain closed with no draw kept.
    NothingKept,
}

/// The message of each rule, up to the offending value where it names one.
pub open spec fn reason_text(reason: Reason) -> Seq<char> {
    match reason {
        Reason::AtLeastOne => "must be at least 1"@,
        Reason::NotFinitePositive(_) => "must be finite and positive, got"@,
        Reason::OutsideUnitInterval(_) => "must be in the open interval (0, 1), got"@,
        Reason::NotFinite(_) => "must be finite, got"@,
        Reason::ScaleNotSampled => "a variance ensemble needs a sampled sigma^2 to carry, and the probit and ordinal latent scales are fixed at 1 for identification"@,
        Reason::NotAboveTwo(_) => "must exceed 2 under a variance ensemble, got"@,
        Reason::GeometryDiffers => "must equal mean_params.geometry; per-ensemble geometry awaits its identification argument"@,
        Reason::StructureDiffers => "must equal mean_params.structure; per-ensemble structure awaits its identification argument"@,
        Reason::FlatConfiguration => "the flat configuration is replaced by `outcome`, `mean_params`,                  `variance_params` and `general_params`; `model` is the `outcome`                  variant, with a variance ensemble as `variance_params.tessellations`"@,
        Reason::OffsetRequired => "must be set under the pinned prior of a model with an offset"@,
        Reason::NothingKept => "no draws were kept"@,
    }
}

/// The offending value a rule names, if any.
pub open spec fn reason_value(reason: Reason) -> Option<Float> {
    match reason {
        Reason::NotFinitePositive(v) => Some(v),
        Reason::OutsideUnitInterval(v) => Some(v),
        Reason::NotFinite(v) => Some(v),
        Reason::NotAboveTwo(v) => Some(v),
        _ => None,
    }
}

impl Reason {
    /// The message, up to the offending value where the rule names one:
    /// the full message is this text, then a space and the value.
    pub fn text(self) -> (r: &'static str)
        ensures
            r@ == reason_text(self),
    {
        match self {
            Reason::AtLeastOne => "must be at least 1",
            Reason::NotFinitePositive(_) => "must be finite and positive, got",
            Reason::OutsideUnitInterval(_) => "must be in the open interval (0, 1), got",
            Reason::NotFinite(_) => "must be finite, got",
            Reason::ScaleNotSampled => "a variance ensemble needs a sampled sigma^2 to carry, and the probit and ordinal latent scales are fixed at 1 for identification",
            Reason::NotAboveTwo(_) => "must exceed 2 under a variance ensemble, got",
            Reason::GeometryDiffers => "must equal mean_params.geometry; per-ensemble geometry awaits its identification argument",
            Reason::StructureDiffers => "must equal mean_params.structure; per-ensemble structure awaits its identification argument",
            Reason::FlatConfiguration => "the flat configuration is replaced by `outcome`, `mean_params`,                  `variance_params` and `general_params`; `model` is the `outcome`                  variant, with a variance ensemble as `variance_params.tessellations`",
            Reason::OffsetRequired => "must be set under the pinned prior of a model with an offset",
            Reason::NothingKept => "no draws were kept",
        }
    }

    /// The offending value the rule names, if any.
    pub fn value(self) -> (r: Option<Float>)
        ensures
            r == reason_value(self),
    {
        match self {
            Reason::NotFinitePositive(v) => Some(v),
            Reason::OutsideUnitInterval(v) => Some(v),
            Reason::NotFinite(v) => Some(v),
            Reason::NotAboveTwo(v) => Some(v),
            _ => None,
        }
    }
}

/// A rejected configuration.
#[derive(Clone, Copy, Debug, PartialEq)]
pub enum Error {
    /// A hyperparameter breaks its rule.
    InvalidHyperparameter {
        /// The field.
        name: Field,
        /// The rule it breaks.
        reason: Reason,
    },
    /// The configuration names an item that this build gates behind the
    /// `experimental` feature.
    RequiresFeature {
        /// The gated item.
        item: Gated,
    },
    /// A response whose length differs from the design's row count.
    RowCountMismatch {
        /// The response length.
        y_len: usize,
        /// The design's row count.
        x_rows: usize,
    },
    /// A response value that is not finite.
    NonFiniteResponse {
        /// The first such row.
        row: usize,
    },
    /// A binary response value outside {0, 1}.
    InvalidLabel {
        /// The first such row.
        row: usize,
    },
}

/// The rejection of `name` for `reason`.
pub open spec fn invalid(name: Field, reason: Reason) -> Error {
    Error::InvalidHyperparameter { name, reason }
}

impl Error {
    /// The field an `InvalidHyperparameter` names.
    pub fn field(self) -> (r: Option<Field>)
        ensures
            r == (match self {
                Error::InvalidHyperparameter { name, .. } => Some(name),
                _ => None,
            }),
    {
        match self {
            Error::InvalidHyperparameter { name, .. } => Some(name),
            _ => None,
        }
    }
}

} // verus!
