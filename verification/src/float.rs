//! Real-valued hyperparameters, held by their IEEE 754 binary64 encoding.
//!
//! A configuration carries its real numbers as the 64-bit pattern of the
//! `f64` a caller wrote (`f64::to_bits`), so that every check on them is an
//! exact statement over integers. The order and the tests below are those
//! of IEEE 754: the encoding is sign and magnitude, and among magnitudes
//! the integer order of the bit patterns is the numeric order; magnitudes
//! above the pattern of infinity are NaN.

use vstd::prelude::*;

verus! {

/// The sign bit of a binary64 pattern.
pub const SIGN_BIT: u64 = 0x8000_0000_0000_0000;

/// The pattern of +infinity; a larger magnitude is a NaN.
pub const INFINITY_BITS: u64 = 0x7FF0_0000_0000_0000;

/// The pattern of 0.0.
pub const ZERO_BITS: u64 = 0;

/// The pattern of 1.0.
pub const ONE_BITS: u64 = 0x3FF0_0000_0000_0000;

/// The pattern of 2.0.
pub const TWO_BITS: u64 = 0x4000_0000_0000_0000;

/// The pattern of 3.0.
pub const THREE_BITS: u64 = 0x4008_0000_0000_0000;

/// A real number as the bit pattern of a binary64 value.
///
/// `==` on `Float` is the numeric equality of `f64` (NaN equals nothing,
/// the two zeros are equal), [`Float::same_value`].
#[derive(Clone, Copy, Debug)]
pub struct Float {
    /// The IEEE 754 binary64 encoding.
    pub bits: u64,
}

impl Float {
    /// The sign bit is set.
    pub open spec fn negative(self) -> bool {
        self.bits >= SIGN_BIT
    }

    /// The pattern with the sign bit cleared.
    pub open spec fn magnitude(self) -> int {
        if self.negative() {
            self.bits - SIGN_BIT
        } else {
            self.bits as int
        }
    }

    /// Not a number.
    pub open spec fn nan(self) -> bool {
        self.magnitude() > INFINITY_BITS
    }

    /// Neither infinite nor NaN.
    pub open spec fn finite(self) -> bool {
        self.magnitude() < INFINITY_BITS
    }

    /// The position of a non-NaN value on the number line: the signed
    /// magnitude, which orders binary64 values as the reals they denote
    /// (both zeros at 0).
    pub open spec fn rank(self) -> int {
        if self.negative() {
            -self.magnitude()
        } else {
            self.magnitude()
        }
    }

    /// `self < other` as `f64` compares.
    pub open spec fn below(self, other: Float) -> bool {
        !self.nan() && !other.nan() && self.rank() < other.rank()
    }

    /// `self <= other` as `f64` compares.
    pub open spec fn at_most(self, other: Float) -> bool {
        !self.nan() && !other.nan() && self.rank() <= other.rank()
    }

    /// `self == other` as `f64` compares.
    pub open spec fn same_value(self, other: Float) -> bool {
        !self.nan() && !other.nan() && self.rank() == other.rank()
    }

    /// `self > 0.0`.
    pub open spec fn above_zero(self) -> bool {
        !self.nan() && self.rank() > 0
    }

    /// Finite and above zero: the test every positive hyperparameter meets.
    pub open spec fn finite_positive(self) -> bool {
        self.finite() && self.above_zero()
    }

    /// The value with the given pattern.
    pub fn from_bits(bits: u64) -> (r: Float)
        ensures
            r.bits == bits,
    {
        Float { bits }
    }

    /// The pattern of the value.
    pub fn to_bits(self) -> (r: u64)
        ensures
            r == self.bits,
    {
        self.bits
    }

    /// The pattern with the sign bit cleared.
    pub fn magnitude_bits(self) -> (r: u64)
        ensures
            r == self.magnitude(),
    {
        if self.bits >= SIGN_BIT {
            self.bits - SIGN_BIT
        } else {
            self.bits
        }
    }

    /// `f64::is_finite`.
    pub fn is_finite(self) -> (r: bool)
        ensures
            r == self.finite(),
    {
        self.magnitude_bits() < INFINITY_BITS
    }

    /// `f64::is_nan`.
    pub fn is_nan(self) -> (r: bool)
        ensures
            r == self.nan(),
    {
        self.magnitude_bits() > INFINITY_BITS
    }

    /// `self < other` on `f64`.
    pub fn is_below(self, other: Float) -> (r: bool)
        ensures
            r == self.below(other),
    {
        if self.is_nan() || other.is_nan() {
            return false;
        }
        let a = self.magnitude_bits();
        let b = other.magnitude_bits();
        let a_negative = self.bits >= SIGN_BIT;
        let b_negative = other.bits >= SIGN_BIT;
        if !a_negative && !b_negative {
            a < b
        } else if a_negative && b_negative {
            b < a
        } else if a_negative {
            !(a == 0 && b == 0)
        } else {
            false
        }
    }

    /// `self <= other` on `f64`.
    pub fn is_at_most(self, other: Float) -> (r: bool)
        ensures
            r == self.at_most(other),
    {
        if self.is_nan() || other.is_nan() {
            return false;
        }
        !other.is_below(self)
    }

    /// `self == other` on `f64`.
    pub fn is_same_value(self, other: Float) -> (r: bool)
        ensures
            r == self.same_value(other),
    {
        self.is_at_most(other) && other.is_at_most(self)
    }

    /// `self.is_finite() && self > 0.0`.
    pub fn is_finite_positive(self) -> (r: bool)
        ensures
            r == self.finite_positive(),
    {
        let zero = Float { bits: ZERO_BITS };
        self.is_finite() && zero.is_below(self)
    }
}

impl PartialEq for Float {
    fn eq(&self, other: &Float) -> (r: bool) {
        self.is_same_value(*other)
    }
}

impl vstd::std_specs::cmp::PartialEqSpecImpl for Float {
    open spec fn obeys_eq_spec() -> bool {
        true
    }

    open spec fn eq_spec(&self, other: &Float) -> bool {
        self.same_value(*other)
    }
}

} // verus!
