//! The distribution request side of replay: thin value-holding
//! parameter bundles, and the closed set of typed sampling requests the
//! dispatch layer knows.

use vstd::prelude::*;
use crate::error::NumericKind;

verus! {

/// A uniform-range parameter bundle: the bounds a replay caller claims
/// it is sampling with.  `incl` records whether `high` is inclusive.
/// A request carrying this bundle is validating: the dispatch layer
/// compares it against the bounds recorded on the tape.
#[derive(Clone, Copy, PartialEq, Eq, Structural, Debug)]
pub struct AbstractUniform<T> {
    pub low: T,
    pub high: T,
    pub incl: bool,
}

impl<T> AbstractUniform<T> {
    /// A half-open range: `high` exclusive.
    pub fn new(low: T, high: T) -> (r: AbstractUniform<T>)
        ensures
            r == (AbstractUniform { low, high, incl: false }),
    {
        AbstractUniform { low, high, incl: false }
    }

    /// An inclusive range.  Tapes record inclusive bounds, so only a
    /// bundle built this way can agree with a recorded operation.
    pub fn new_inclusive(low: T, high: T) -> (r: AbstractUniform<T>)
        ensures
            r == (AbstractUniform { low, high, incl: true }),
    {
        AbstractUniform { low, high, incl: true }
    }
}

/// A normal-distribution parameter bundle, both parameters as IEEE-754
/// `u64` bit patterns.  A request carrying this bundle is validating:
/// the dispatch layer compares it against the parameters recorded on
/// the tape under IEEE-754 double equality — a NaN parameter never
/// agrees with anything, and the two zeros agree regardless of sign.
#[derive(Clone, Copy, PartialEq, Eq, Structural, Debug)]
pub struct AbstractNormal {
    pub mean_bits: u64,
    pub std_dev_bits: u64,
}

impl AbstractNormal {
    pub fn new(mean_bits: u64, std_dev_bits: u64) -> (r: AbstractNormal)
        ensures
            r == (AbstractNormal { mean_bits, std_dev_bits }),
    {
        AbstractNormal { mean_bits, std_dev_bits }
    }
}

/// One typed sampling request: a distribution kind together with its
/// target numeric type and, for the validating kinds, the parameters
/// the caller claims.  This is the closed mapping the dispatch layer
/// matches on; a pair it does not designate fails, it is never guessed.
#[derive(Clone, Copy, PartialEq, Eq, Structural, Debug)]
pub enum DistRequest {
    /// A bare uniform-range request carrying no bounds; accepted for
    /// signed and unsigned targets, without parameter validation.
    Uniform(NumericKind),
    /// A validating uniform request with signed 64-bit bounds.
    AbstractUniformSigned(AbstractUniform<i64>),
    /// A validating uniform request with unsigned 64-bit bounds.
    AbstractUniformUnsigned(AbstractUniform<u64>),
    /// A standard-normal request (mean 0, unit variance implicit);
    /// accepted for the float target only.
    StandardNormal(NumericKind),
    /// A bare parameterized-normal request carrying no parameters;
    /// accepted for the float target only, without validation.
    Normal(NumericKind),
    /// A validating normal request with explicit parameters.
    AbstractNormal(AbstractNormal),
}

} // verus!
