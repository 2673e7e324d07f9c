//! The type dispatch layer: matching one typed sampling request against
//! the operation the cursor points at, validating parameters where the
//! request carries any, and extracting the next scalar.

use vstd::prelude::*;
use crate::distributions::DistRequest;
use crate::error::{DistKind, NumericKind, OpKind, TapeError};
use crate::tape::{op_data, op_len, Op, TapeOp, Value};

verus! {

/// One extracted scalar, typed as the request asked for it.
#[derive(Clone, Copy, PartialEq, Eq, Structural, Debug)]
pub enum Sample {
    Signed(i64),
    Unsigned(u64),
    /// A floating-point scalar, by its IEEE-754 bit pattern.
    FloatBits(u64),
}

/// The bit pattern with its sign bit cleared.
pub open spec fn abs_bits(bits: u64) -> u64 {
    if bits >= 0x8000_0000_0000_0000 {
        (bits - 0x8000_0000_0000_0000) as u64
    } else {
        bits
    }
}

/// Whether the pattern encodes an IEEE-754 NaN: exponent all ones and
/// a nonzero mantissa, i.e. anything above the infinity pattern once
/// the sign bit is cleared.
pub open spec fn is_nan_bits(bits: u64) -> bool {
    abs_bits(bits) > 0x7ff0_0000_0000_0000
}

/// IEEE-754 double equality, decided on the bit patterns: a NaN equals
/// nothing (itself included), the two zeros equal each other, and any
/// other value equals exactly itself.  This is what `==` on the
/// decoded doubles returns.
pub open spec fn float_eq_bits(a: u64, b: u64) -> bool {
    &&& !is_nan_bits(a)
    &&& !is_nan_bits(b)
    &&& (a == b || (abs_bits(a) == 0 && abs_bits(b) == 0))
}

/// Executes [`float_eq_bits`].
fn float_eq(a: u64, b: u64) -> (r: bool)
    ensures
        r == float_eq_bits(a, b),
{
    let aa = if a >= 0x8000_0000_0000_0000 { a - 0x8000_0000_0000_0000 } else { a };
    let bb = if b >= 0x8000_0000_0000_0000 { b - 0x8000_0000_0000_0000 } else { b };
    let a_nan = aa > 0x7ff0_0000_0000_0000;
    let b_nan = bb > 0x7ff0_0000_0000_0000;
    !a_nan && !b_nan && (a == b || (aa == 0 && bb == 0))
}

/// The kind of an operation record, as an identifier.
pub open spec fn op_kind(op: Op) -> OpKind {
    match op {
        Op::RandomIntegers { .. } => OpKind::RandomIntegers,
        Op::StandardNormal { .. } => OpKind::StandardNormal,
        Op::Normal { .. } => OpKind::Normal,
    }
}

/// The place an extracted scalar takes in the flat value stream.
pub open spec fn sample_value(s: Sample) -> Value {
    match s {
        Sample::Signed(x) => Value::Int(x),
        Sample::Unsigned(x) => Value::Int(x as i64),
        Sample::FloatBits(b) => Value::Float(b),
    }
}

pub open spec fn mismatch(requested: DistKind, op: Op) -> TapeError {
    TapeError::OperationMismatch { requested, found: op_kind(op) }
}

/// What dispatch yields for request `req` against operation `op` at
/// flat offset `off`: the designated-match rule, parameter validation
/// for the validating request kinds, and signed-to-unsigned narrowing.
/// The scalar, when one is yielded, is `op`'s recorded value at `off`,
/// verbatim.
pub open spec fn spec_extract(op: Op, req: DistRequest, off: int) -> Result<Sample, TapeError>
    recommends
        0 <= off < op_len(op),
{
    match req {
        DistRequest::Uniform(num) => match op {
            Op::RandomIntegers { data, .. } => match num {
                NumericKind::Signed => Ok(Sample::Signed(data[off])),
                NumericKind::Unsigned => if data[off] < 0 {
                    Err(TapeError::RangeViolation)
                } else {
                    Ok(Sample::Unsigned(data[off] as u64))
                },
                NumericKind::Float => Err(
                    TapeError::PairingUnsupported { kind: DistKind::Uniform, num },
                ),
            },
            _ => if num is Float {
                Err(TapeError::PairingUnsupported { kind: DistKind::Uniform, num })
            } else {
                Err(mismatch(DistKind::Uniform, op))
            },
        },
        DistRequest::AbstractUniformSigned(au) => match op {
            Op::RandomIntegers { low, high, data, .. } => if !(au.incl && au.low == low
                && au.high == high) {
                Err(TapeError::ParameterDrift)
            } else {
                Ok(Sample::Signed(data[off]))
            },
            _ => Err(mismatch(DistKind::AbstractUniform, op)),
        },
        DistRequest::AbstractUniformUnsigned(au) => match op {
            Op::RandomIntegers { low, high, data, .. } => if low < 0 || high < 0 {
                Err(TapeError::RangeViolation)
            } else if !(au.incl && au.low == low as u64 && au.high == high as u64) {
                Err(TapeError::ParameterDrift)
            } else if data[off] < 0 {
                Err(TapeError::RangeViolation)
            } else {
                Ok(Sample::Unsigned(data[off] as u64))
            },
            _ => Err(mismatch(DistKind::AbstractUniform, op)),
        },
        DistRequest::StandardNormal(num) => if !(num is Float) {
            Err(TapeError::PairingUnsupported { kind: DistKind::StandardNormal, num })
        } else {
            match op {
                Op::StandardNormal { data, .. } => Ok(Sample::FloatBits(data[off])),
                _ => Err(mismatch(DistKind::StandardNormal, op)),
            }
        },
        DistRequest::Normal(num) => if !(num is Float) {
            Err(TapeError::PairingUnsupported { kind: DistKind::Normal, num })
        } else {
            match op {
                Op::Normal { data, .. } => Ok(Sample::FloatBits(data[off])),
                _ => Err(mismatch(DistKind::Normal, op)),
            }
        },
        DistRequest::AbstractNormal(an) => match op {
            Op::Normal { mean_bits, std_dev_bits, data } => if !(float_eq_bits(
                an.mean_bits,
                mean_bits,
            ) && float_eq_bits(an.std_dev_bits, std_dev_bits)) {
                Err(TapeError::ParameterDrift)
            } else {
                Ok(Sample::FloatBits(data[off]))
            },
            _ => Err(mismatch(DistKind::AbstractNormal, op)),
        },
    }
}

/// A scalar that dispatch yields is the operation's flat value at the
/// cursor's offset, verbatim.
pub proof fn lemma_extract_value(op: Op, req: DistRequest, off: int)
    requires
        0 <= off < op_len(op),
        spec_extract(op, req, off) is Ok,
    ensures
        sample_value(spec_extract(op, req, off)->Ok_0) == op_data(op)[off],
{
}

/// Executes the dispatch rule: exactly [`spec_extract`].
pub(crate) fn extract(op: &TapeOp, req: &DistRequest, off: usize) -> (r: Result<
    Sample,
    TapeError,
>)
    requires
        off < op_len(op@),
    ensures
        r == spec_extract(op@, *req, off as int),
{
    match req {
        DistRequest::Uniform(num) => match op {
            TapeOp::RandomIntegers { data, .. } => match num {
                NumericKind::Signed => Ok(Sample::Signed(data[off])),
                NumericKind::Unsigned => {
                    let x = data[off];
                    if x < 0 {
                        Err(TapeError::RangeViolation)
                    } else {
                        Ok(Sample::Unsigned(x as u64))
                    }
                },
                NumericKind::Float => Err(
                    TapeError::PairingUnsupported { kind: DistKind::Uniform, num: *num },
                ),
            },
            _ => if matches!(num, NumericKind::Float) {
                Err(TapeError::PairingUnsupported { kind: DistKind::Uniform, num: *num })
            } else {
                Err(TapeError::OperationMismatch {
                    requested: DistKind::Uniform,
                    found: op.kind(),
                })
            },
        },
        DistRequest::AbstractUniformSigned(au) => match op {
            TapeOp::RandomIntegers { low, high, data, .. } => if !(au.incl && au.low == *low
                && au.high == *high) {
                Err(TapeError::ParameterDrift)
            } else {
                Ok(Sample::Signed(data[off]))
            },
            _ => Err(TapeError::OperationMismatch {
                requested: DistKind::AbstractUniform,
                found: op.kind(),
            }),
        },
        DistRequest::AbstractUniformUnsigned(au) => match op {
            TapeOp::RandomIntegers { low, high, data, .. } => if *low < 0 || *high < 0 {
                Err(TapeError::RangeViolation)
            } else if !(au.incl && au.low == *low as u64 && au.high == *high as u64) {
                Err(TapeError::ParameterDrift)
            } else {
                let x = data[off];
                if x < 0 {
                    Err(TapeError::RangeViolation)
                } else {
                    Ok(Sample::Unsigned(x as u64))
                }
            },
            _ => Err(TapeError::OperationMismatch {
                requested: DistKind::AbstractUniform,
                found: op.kind(),
            }),
        },
        DistRequest::StandardNormal(num) => if !matches!(num, NumericKind::Float) {
            Err(TapeError::PairingUnsupported { kind: DistKind::StandardNormal, num: *num })
        } else {
            match op {
                TapeOp::StandardNormal { data, .. } => Ok(Sample::FloatBits(data[off])),
                _ => Err(TapeError::OperationMismatch {
                    requested: DistKind::StandardNormal,
                    found: op.kind(),
                }),
            }
        },
        DistRequest::Normal(num) => if !matches!(num, NumericKind::Float) {
            Err(TapeError::PairingUnsupported { kind: DistKind::Normal, num: *num })
        } else {
            match op {
                TapeOp::Normal { data, .. } => Ok(Sample::FloatBits(data[off])),
                _ => Err(TapeError::OperationMismatch {
                    requested: DistKind::Normal,
                    found: op.kind(),
                }),
            }
        },
        DistRequest::AbstractNormal(an) => match op {
            TapeOp::Normal { mean_bits, std_dev_bits, data } => if !(float_eq(
                an.mean_bits,
                *mean_bits,
            ) && float_eq(an.std_dev_bits, *std_dev_bits)) {
                Err(TapeError::ParameterDrift)
            } else {
                Ok(Sample::FloatBits(data[off]))
            },
            _ => Err(TapeError::OperationMismatch {
                requested: DistKind::AbstractNormal,
                found: op.kind(),
            }),
        },
    }
}

impl TapeOp {
    /// This operation's kind, as an identifier.
    pub fn kind(&self) -> (r: OpKind)
        ensures
            r == op_kind(self@),
    {
        match self {
            TapeOp::RandomIntegers { .. } => OpKind::RandomIntegers,
            TapeOp::StandardNormal { .. } => OpKind::StandardNormal,
            TapeOp::Normal { .. } => OpKind::Normal,
        }
    }
}

} // verus!
