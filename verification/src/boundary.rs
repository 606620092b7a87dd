//! The checks the sampler makes on what a caller hands it before any draw:
//! the pinned prior's scale and offset, and a replacement response's
//! length, finiteness and labels.

use vstd::prelude::*;

use crate::config::{offset_of, Config};
use crate::error::{invalid, Error, Field, Reason};
use crate::float::{Float, ONE_BITS, ZERO_BITS};
use crate::outcome::Outcome;

verus! {

/// A response value the probit model reads as a label: 0 or 1 as `f64`
/// compares.
pub open spec fn is_label(v: Float) -> bool {
    v.same_value(Float { bits: ZERO_BITS }) || v.same_value(Float { bits: ONE_BITS })
}

/// The verdict on a pinned prior's inputs: the scale finite and positive,
/// then an offset set where the model has one.
pub open spec fn pinned_prior_verdict(config: Config, lambda: Float) -> Result<(), Error> {
    if !lambda.finite_positive() {
        Err(invalid(Field::Lambda, Reason::NotFinitePositive(lambda)))
    } else if config.outcome is Probit && offset_of(config.outcome) is None {
        Err(invalid(Field::Offset, Reason::OffsetRequired))
    } else {
        Ok(())
    }
}

/// The row of the first value that is not a label, if any.
pub fn first_invalid_label(y: &[Float]) -> (r: Option<usize>)
    ensures
        match r {
            Some(row) => row < y@.len() && !is_label(y@[row as int]) && forall|j: int|
                0 <= j < row ==> is_label(#[trigger] y@[j]),
            None => forall|j: int| 0 <= j < y@.len() ==> is_label(#[trigger] y@[j]),
        },
{
    let zero = Float { bits: ZERO_BITS };
    let one = Float { bits: ONE_BITS };
    let mut i: usize = 0;
    while i < y.len()
        invariant
            i <= y@.len(),
            forall|j: int| 0 <= j < i ==> is_label(#[trigger] y@[j]),
            zero == (Float { bits: ZERO_BITS }),
            one == (Float { bits: ONE_BITS }),
        decreases y.len() - i,
    {
        let v = y[i];
        let label = v.is_same_value(zero) || v.is_same_value(one);
        if !label {
            return Some(i);
        }
        i = i + 1;
    }
    None
}

/// The row of the first value that is not finite, if any.
pub fn first_non_finite(y: &[Float]) -> (r: Option<usize>)
    ensures
        match r {
            Some(row) => row < y@.len() && !y@[row as int].finite() && forall|j: int|
                0 <= j < row ==> (#[trigger] y@[j]).finite(),
            None => forall|j: int| 0 <= j < y@.len() ==> (#[trigger] y@[j]).finite(),
        },
{
    let mut i: usize = 0;
    while i < y.len()
        invariant
            i <= y@.len(),
            forall|j: int| 0 <= j < i ==> (#[trigger] y@[j]).finite(),
        decreases y.len() - i,
    {
        if !y[i].is_finite() {
            return Some(i);
        }
        i = i + 1;
    }
    None
}

/// The checks of a pinned prior, which fixes lambda rather than
/// calibrating it: `lambda` must be finite and positive, and under the
/// probit model the offset must be set, since Phi^-1(ybar) is a function
/// of the data.
pub fn check_pinned_prior(config: &Config, lambda: Float) -> (r: Result<(), Error>)
    ensures
        r == pinned_prior_verdict(*config, lambda),
{
    if !lambda.is_finite_positive() {
        return Err(
            Error::InvalidHyperparameter {
                name: Field::Lambda,
                reason: Reason::NotFinitePositive(lambda),
            },
        );
    }
    let needs_offset = match config.outcome {
        Outcome::Probit(_) => true,
        _ => false,
    };
    if needs_offset && config.offset().is_none() {
        return Err(
            Error::InvalidHyperparameter { name: Field::Offset, reason: Reason::OffsetRequired },
        );
    }
    Ok(())
}

/// Every value is finite.
pub open spec fn all_finite(y: Seq<Float>) -> bool {
    forall|j: int| 0 <= j < y.len() ==> (#[trigger] y[j]).finite()
}

/// Every value is a label.
pub open spec fn all_labels(y: Seq<Float>) -> bool {
    forall|j: int| 0 <= j < y.len() ==> is_label(#[trigger] y[j])
}

/// `row` holds the first value that is not finite.
pub open spec fn first_non_finite_at(y: Seq<Float>, row: usize) -> bool {
    row < y.len() && !y[row as int].finite() && all_finite(y.take(row as int))
}

/// `row` holds the first value that is not a label.
pub open spec fn first_non_label_at(y: Seq<Float>, row: usize) -> bool {
    row < y.len() && !is_label(y[row as int]) && all_labels(y.take(row as int))
}

/// The checks on a replacement response for a chain over `rows`
/// observations: the length, then the first non-finite value, then under
/// the probit model the first value outside {0, 1}.
pub fn check_response(config: &Config, rows: usize, y: &[Float]) -> (r: Result<(), Error>)
    ensures
        match r {
            Ok(()) => y@.len() == rows && all_finite(y@) && (config.outcome is Probit ==> all_labels(y@)),
            Err(Error::RowCountMismatch { y_len, x_rows }) => y_len == y@.len() && x_rows == rows
                && y@.len() != rows,
            Err(Error::NonFiniteResponse { row }) => y@.len() == rows && first_non_finite_at(y@, row),
            Err(Error::InvalidLabel { row }) => y@.len() == rows && all_finite(y@)
                && config.outcome is Probit && first_non_label_at(y@, row),
            _ => false,
        },
{
    if y.len() != rows {
        return Err(Error::RowCountMismatch { y_len: y.len(), x_rows: rows });
    }
    if let Some(row) = first_non_finite(y) {
        assert(all_finite(y@.take(row as int)));
        return Err(Error::NonFiniteResponse { row });
    }
    if let Outcome::Probit(_) = config.outcome {
        if let Some(row) = first_invalid_label(y) {
            assert(all_labels(y@.take(row as int)));
            return Err(Error::InvalidLabel { row });
        }
    }
    Ok(())
}

} // verus!
