//! Replay guarantees stated on their own, over the same spec functions
//! the public contracts use.
//!
//! The round-trip guarantee itself — k sequential matching `sample`
//! calls return the tape's k flat values in recorded order, and the
//! (k+1)th call fails exhausted — is the `ensures` of
//! [`crate::replay::ReplayTapeRng::sample`] together with
//! [`crate::replay::lemma_wf_consumed`]: each successful call returns
//! `flat(ops)[consumed]` and moves `consumed` up by exactly one, and
//! the cursor is closed exactly when `consumed` reaches the stream's
//! length.

use vstd::prelude::*;
use crate::dispatch::{float_eq_bits, is_nan_bits, spec_extract, Sample};
use crate::distributions::{AbstractNormal, AbstractUniform, DistRequest};
use crate::error::TapeError;
use crate::tape::{flat, op_data, op_len, Op};

verus! {

/// `op` with its shape metadata blanked out: what is left is exactly
/// what replay consumes.
pub open spec fn erase_shape(op: Op) -> Op {
    match op {
        Op::RandomIntegers { low, high, shape, data } => Op::RandomIntegers {
            low,
            high,
            shape: Seq::empty(),
            data,
        },
        Op::StandardNormal { shape, data } => Op::StandardNormal { shape: Seq::empty(), data },
        Op::Normal { .. } => op,
    }
}

/// A whole tape with shape metadata blanked out.
pub open spec fn erase_shapes(ops: Seq<Op>) -> Seq<Op> {
    ops.map_values(|op: Op| erase_shape(op))
}

/// Shape irrelevance, at one operation: two operations that differ
/// only in shape metadata answer every dispatch request identically —
/// same scalar or same failure.
pub proof fn lemma_extract_shape_irrelevant(op1: Op, op2: Op, req: DistRequest, off: int)
    requires
        erase_shape(op1) == erase_shape(op2),
    ensures
        spec_extract(op1, req, off) == spec_extract(op2, req, off),
        op_len(op1) == op_len(op2),
{
    assert(op_data(op1) == op_data(op2));
}

/// Shape irrelevance, over the whole tape: two tapes with identical
/// flat values but different shape metadata carry the same flat value
/// stream, so they replay identically.
pub proof fn lemma_flat_shape_irrelevant(ops1: Seq<Op>, ops2: Seq<Op>)
    requires
        erase_shapes(ops1) == erase_shapes(ops2),
    ensures
        flat(ops1) == flat(ops2),
    decreases ops1.len(),
{
    assert(ops1.len() == ops2.len()) by {
        assert(erase_shapes(ops1).len() == ops1.len());
        assert(erase_shapes(ops2).len() == ops2.len());
    }
    if ops1.len() == 0 {
        assert(flat(ops1) =~= flat(ops2));
    } else {
        assert(erase_shape(ops1[0]) == erase_shape(ops2[0])) by {
            assert(erase_shapes(ops1)[0] == erase_shape(ops1[0]));
            assert(erase_shapes(ops2)[0] == erase_shape(ops2[0]));
        }
        assert(op_data(ops1[0]) == op_data(ops2[0]));
        assert(erase_shapes(ops1.drop_first()) =~= erase_shapes(ops2.drop_first())) by {
            assert(forall|k: int|
                0 <= k < ops1.len() - 1 ==> erase_shapes(ops1.drop_first())[k] == erase_shapes(
                    ops1,
                )[k + 1] && erase_shapes(ops2.drop_first())[k] == erase_shapes(ops2)[k + 1]);
        }
        lemma_flat_shape_irrelevant(ops1.drop_first(), ops2.drop_first());
        assert(flat(ops1) == op_data(ops1[0]) + flat(ops1.drop_first()));
        assert(flat(ops2) == op_data(ops2[0]) + flat(ops2.drop_first()));
    }
}

/// Pairing enforcement: a normal-distribution request of any flavour
/// against an integer-range operation always fails — a wrong-typed
/// scalar is never returned silently.
pub proof fn lemma_pairing_enforced(op: Op, req: DistRequest, off: int)
    requires
        op is RandomIntegers,
        req is StandardNormal || req is Normal || req is AbstractNormal,
    ensures
        spec_extract(op, req, off) is Err,
{
}

/// Parameter drift, uniform-range flavour: a validating request whose
/// bounds differ from the recorded bounds (or that is not inclusive)
/// fails with drift, even though the operation kind matches.
pub proof fn lemma_drift_detected_uniform(
    low: i64,
    high: i64,
    shape: Seq<i64>,
    data: Seq<i64>,
    au: AbstractUniform<i64>,
    off: int,
)
    requires
        !(au.incl && au.low == low && au.high == high),
    ensures
        spec_extract(
            Op::RandomIntegers { low, high, shape, data },
            DistRequest::AbstractUniformSigned(au),
            off,
        ) == Err::<Sample, TapeError>(TapeError::ParameterDrift),
{
}

/// Parameter drift, unsigned uniform-range flavour: with well-formed
/// (non-negative) recorded bounds, a disagreeing validating request
/// fails with drift.
pub proof fn lemma_drift_detected_uniform_unsigned(
    low: i64,
    high: i64,
    shape: Seq<i64>,
    data: Seq<i64>,
    au: AbstractUniform<u64>,
    off: int,
)
    requires
        low >= 0,
        high >= 0,
        !(au.incl && au.low == low as u64 && au.high == high as u64),
    ensures
        spec_extract(
            Op::RandomIntegers { low, high, shape, data },
            DistRequest::AbstractUniformUnsigned(au),
            off,
        ) == Err::<Sample, TapeError>(TapeError::ParameterDrift),
{
}

/// Parameter drift, normal flavour: a validating request whose mean or
/// standard deviation is not equal — under IEEE-754 double equality —
/// to the recorded parameters fails with drift, even though the
/// operation kind matches.
pub proof fn lemma_drift_detected_normal(
    mean_bits: u64,
    std_dev_bits: u64,
    data: Seq<u64>,
    an: AbstractNormal,
    off: int,
)
    requires
        !(float_eq_bits(an.mean_bits, mean_bits) && float_eq_bits(
            an.std_dev_bits,
            std_dev_bits,
        )),
    ensures
        spec_extract(
            Op::Normal { mean_bits, std_dev_bits, data },
            DistRequest::AbstractNormal(an),
            off,
        ) == Err::<Sample, TapeError>(TapeError::ParameterDrift),
{
}

/// A recorded NaN parameter can never validate: NaN is equal to
/// nothing under IEEE-754 equality, so every validating normal request
/// drifts against such a record, whatever parameters it carries.
pub proof fn lemma_nan_never_validates(
    mean_bits: u64,
    std_dev_bits: u64,
    data: Seq<u64>,
    an: AbstractNormal,
    off: int,
)
    requires
        is_nan_bits(mean_bits) || is_nan_bits(std_dev_bits),
    ensures
        spec_extract(
            Op::Normal { mean_bits, std_dev_bits, data },
            DistRequest::AbstractNormal(an),
            off,
        ) == Err::<Sample, TapeError>(TapeError::ParameterDrift),
{
}

} // verus!
