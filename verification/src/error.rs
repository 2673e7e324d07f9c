//! Failure kinds of parsing and replay.  Every failure is fatal: each
//! one signals file corruption or a mismatch between the recording and
//! the replaying program, and none is ever recovered from.

use vstd::prelude::*;

verus! {

/// The distribution kinds a sampling request can name, as plain
/// identifiers for diagnosability.
#[derive(Clone, Copy, PartialEq, Eq, Structural, Debug)]
pub enum DistKind {
    Uniform,
    AbstractUniform,
    StandardNormal,
    Normal,
    AbstractNormal,
}

/// The target numeric type of a sampling request.
#[derive(Clone, Copy, PartialEq, Eq, Structural, Debug)]
pub enum NumericKind {
    Signed,
    Unsigned,
    Float,
}

/// The operation kinds a tape record can carry.
#[derive(Clone, Copy, PartialEq, Eq, Structural, Debug)]
pub enum OpKind {
    RandomIntegers,
    StandardNormal,
    Normal,
}

/// Everything that can go wrong while opening or replaying a tape.
#[derive(Clone, Copy, PartialEq, Eq, Structural, Debug)]
pub enum TapeError {
    /// The byte source does not begin with the expected magic marker.
    BadMagic,
    /// The byte source ends in the middle of a field.
    Truncated,
    /// A record begins with an operation tag this format does not know.
    UnknownTag,
    /// A recorded shape has a negative dimension size.
    BadShape,
    /// The requested (distribution kind, numeric type) pair has no
    /// designated operation kind at all.
    PairingUnsupported { kind: DistKind, num: NumericKind },
    /// The request has a designated operation kind, but the cursor
    /// points at a record of a different kind.
    OperationMismatch { requested: DistKind, found: OpKind },
    /// A validating request's parameters disagree with the parameters
    /// recorded at the cursor.
    ParameterDrift,
    /// A negative recorded value (or bound) where an unsigned value was
    /// requested.
    RangeViolation,
    /// A `sample` call after the cursor consumed the last recorded value.
    TapeExhausted,
}

} // verus!
