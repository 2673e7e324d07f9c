//! The tape parser: decoding the on-disk byte stream into the ordered
//! sequence of operation records.
//!
//! Layout, all multi-byte fields little-endian, 8 bytes wide:
//! a 7-byte magic marker and a 1-byte format version, then repeated
//! records.  Each record is a 4-byte ASCII tag followed by its fields:
//! integer-range records carry low, high, a dimension count, the
//! dimension sizes and the flat signed values; standard-normal records
//! carry a dimension count, sizes and flat float values; normal records
//! carry mean, standard deviation, a dimension count, sizes and flat
//! float values.  The stream ends exactly at a record boundary;
//! anything else is corruption.

use vstd::prelude::*;
use crate::bytes::{i64_at, i64s_at, read_i64_le, read_i64s, read_u64_le, read_u64s, u64_at, u64s_at};
use crate::error::TapeError;
use crate::tape::{
    lemma_prod_monotone, lemma_prod_nonneg, lemma_prod_step, lemma_prod_zero, op_wf, ops_view,
    prod, Op, TapeOp,
};

verus! {

/// Whether `b` opens with the expected magic marker, the ASCII bytes
/// of `RNGTAPE`.
pub open spec fn magic_ok(b: Seq<u8>) -> bool
    recommends
        b.len() >= 7,
{
    b[0] == 0x52 && b[1] == 0x4e && b[2] == 0x47 && b[3] == 0x54 && b[4] == 0x41 && b[5] == 0x50
        && b[6] == 0x45
}

/// Whether some dimension size in `s` is negative.
pub open spec fn has_negative(s: Seq<i64>) -> bool {
    exists|k: int| 0 <= k < s.len() && s[k] < 0
}

/// Parses a shape block at position `p`: a dimension count, then that
/// many dimension sizes.  Yields the shape, the flat length it spans
/// (the product of the sizes), and the position just past the sizes —
/// after checking that the flat payload itself still fits in `b`.
/// A negative count or size is corrupt; running out of bytes is
/// truncation.
pub open spec fn spec_shape(b: Seq<u8>, p: int) -> Result<(Seq<i64>, int, int), TapeError>
    recommends
        0 <= p <= b.len(),
{
    if p + 8 > b.len() {
        Err(TapeError::Truncated)
    } else {
        let nd = i64_at(b, p);
        if nd < 0 {
            Err(TapeError::BadShape)
        } else if p + 8 + 8 * nd > b.len() {
            Err(TapeError::Truncated)
        } else {
            let shape = i64s_at(b, p + 8, nd as nat);
            if has_negative(shape) {
                Err(TapeError::BadShape)
            } else if p + 8 + 8 * nd + 8 * prod(shape) > b.len() {
                Err(TapeError::Truncated)
            } else {
                Ok((shape, prod(shape), p + 8 + 8 * nd))
            }
        }
    }
}

/// Parses an integer-range record body at `p` (just past the tag):
/// low, high, then the shape block and the flat signed values.
pub open spec fn spec_random_integers(b: Seq<u8>, p: int) -> Result<(Op, int), TapeError>
    recommends
        0 <= p <= b.len(),
{
    if p + 16 > b.len() {
        Err(TapeError::Truncated)
    } else {
        match spec_shape(b, p + 16) {
            Err(e) => Err(e),
            Ok((shape, m, dp)) => Ok(
                (
                    Op::RandomIntegers {
                        low: i64_at(b, p),
                        high: i64_at(b, p + 8),
                        shape,
                        data: i64s_at(b, dp, m as nat),
                    },
                    dp + 8 * m,
                ),
            ),
        }
    }
}

/// Parses a standard-normal record body at `p`: the shape block and
/// the flat float values, by bit pattern.
pub open spec fn spec_standard_normal(b: Seq<u8>, p: int) -> Result<(Op, int), TapeError>
    recommends
        0 <= p <= b.len(),
{
    match spec_shape(b, p) {
        Err(e) => Err(e),
        Ok((shape, m, dp)) => Ok(
            (Op::StandardNormal { shape, data: u64s_at(b, dp, m as nat) }, dp + 8 * m),
        ),
    }
}

/// Parses a parameterized-normal record body at `p`: mean and standard
/// deviation by bit pattern, then the shape block and the flat float
/// values.  The shape sizes only set the flat length; the record keeps
/// no shape in memory.
pub open spec fn spec_normal(b: Seq<u8>, p: int) -> Result<(Op, int), TapeError>
    recommends
        0 <= p <= b.len(),
{
    if p + 16 > b.len() {
        Err(TapeError::Truncated)
    } else {
        match spec_shape(b, p + 16) {
            Err(e) => Err(e),
            Ok((shape, m, dp)) => Ok(
                (
                    Op::Normal {
                        mean_bits: u64_at(b, p),
                        std_dev_bits: u64_at(b, p + 8),
                        data: u64s_at(b, dp, m as nat),
                    },
                    dp + 8 * m,
                ),
            ),
        }
    }
}

/// Parses one record at position `pos`: a 4-byte ASCII tag, then the
/// tag's body.  `Dri.` is an integer-range record, `Dsn.` a
/// standard-normal record, `Dn..` a parameterized-normal record; any
/// other tag is an unsupported operation kind.  Yields the operation
/// and the position just past the record.
pub open spec fn spec_op(b: Seq<u8>, pos: int) -> Result<(Op, int), TapeError>
    recommends
        0 <= pos < b.len(),
{
    if pos + 4 > b.len() {
        Err(TapeError::Truncated)
    } else if b[pos] == 0x44 && b[pos + 1] == 0x72 && b[pos + 2] == 0x69 && b[pos + 3] == 0x2e {
        spec_random_integers(b, pos + 4)
    } else if b[pos] == 0x44 && b[pos + 1] == 0x73 && b[pos + 2] == 0x6e && b[pos + 3] == 0x2e {
        spec_standard_normal(b, pos + 4)
    } else if b[pos] == 0x44 && b[pos + 1] == 0x6e && b[pos + 2] == 0x2e && b[pos + 3] == 0x2e {
        spec_normal(b, pos + 4)
    } else {
        Err(TapeError::UnknownTag)
    }
}

/// Parses the repeated records from position `pos` to the end of `b`.
/// Ending exactly at a record boundary is successful termination.
pub open spec fn spec_ops(b: Seq<u8>, pos: int) -> Result<Seq<Op>, TapeError>
    recommends
        0 <= pos <= b.len(),
    decreases b.len() - pos,
{
    if pos < 0 || pos >= b.len() {
        Ok(Seq::empty())
    } else {
        match spec_op(b, pos) {
            Err(e) => Err(e),
            Ok((op, next)) => if pos < next <= b.len() {
                match spec_ops(b, next) {
                    Err(e) => Err(e),
                    Ok(rest) => Ok(seq![op] + rest),
                }
            } else {
                Err(TapeError::Truncated)
            },
        }
    }
}

/// Parses a whole tape: magic marker, format version byte, then the
/// records.  A wrong marker is fatal before anything else is looked at.
pub open spec fn spec_parse(b: Seq<u8>) -> Result<Seq<Op>, TapeError> {
    if b.len() < 7 {
        Err(TapeError::Truncated)
    } else if !magic_ok(b) {
        Err(TapeError::BadMagic)
    } else if b.len() < 8 {
        Err(TapeError::Truncated)
    } else {
        spec_ops(b, 8)
    }
}

/// A record the parser accepts satisfies the data-model invariant:
/// its flat payload is exactly as long as its shape spans.
pub proof fn lemma_spec_op_wf(b: Seq<u8>, pos: int)
    requires
        spec_op(b, pos) is Ok,
    ensures
        op_wf(spec_op(b, pos)->Ok_0.0),
{
    let p = pos + 4;
    if b[pos] == 0x44 && b[pos + 1] == 0x72 && b[pos + 2] == 0x69 && b[pos + 3] == 0x2e {
        let (shape, m, dp) = spec_shape(b, p + 16)->Ok_0;
        assert(forall|k: int| 0 <= k < shape.len() ==> shape[k] >= 0);
        lemma_prod_nonneg(shape);
        assert(i64s_at(b, dp, m as nat).len() == m);
    } else if b[pos] == 0x44 && b[pos + 1] == 0x73 && b[pos + 2] == 0x6e && b[pos + 3] == 0x2e {
        let (shape, m, dp) = spec_shape(b, p)->Ok_0;
        assert(forall|k: int| 0 <= k < shape.len() ==> shape[k] >= 0);
        lemma_prod_nonneg(shape);
        assert(u64s_at(b, dp, m as nat).len() == m);
    }
}

/// Every operation of a tape the parser accepts satisfies the
/// data-model invariant.
pub proof fn lemma_spec_ops_wf(b: Seq<u8>, pos: int)
    requires
        spec_ops(b, pos) is Ok,
    ensures
        forall|k: int|
            0 <= k < spec_ops(b, pos)->Ok_0.len() ==> op_wf(#[trigger] spec_ops(b, pos)->Ok_0[k]),
    decreases b.len() - pos,
{
    if pos < 0 || pos >= b.len() {
    } else {
        let (op, next) = spec_op(b, pos)->Ok_0;
        lemma_spec_op_wf(b, pos);
        lemma_spec_ops_wf(b, next);
        let rest = spec_ops(b, next)->Ok_0;
        assert(forall|k: int|
            1 <= k < spec_ops(b, pos)->Ok_0.len() ==> #[trigger] spec_ops(b, pos)->Ok_0[k]
                == rest[k - 1]);
    }
}

/// Every operation of a parsed tape satisfies the data-model
/// invariant: flat payload length equals the product of the recorded
/// shape's dimension sizes.
pub proof fn lemma_parsed_tape_wf(b: Seq<u8>)
    requires
        spec_parse(b) is Ok,
    ensures
        forall|k: int|
            0 <= k < spec_parse(b)->Ok_0.len() ==> op_wf(#[trigger] spec_parse(b)->Ok_0[k]),
{
    lemma_spec_ops_wf(b, 8);
}

/// `r` with `prefix` prepended to its operations when it succeeded.
pub open spec fn with_prefix(prefix: Seq<Op>, r: Result<Seq<Op>, TapeError>) -> Result<
    Seq<Op>,
    TapeError,
> {
    match r {
        Ok(rest) => Ok(prefix + rest),
        Err(e) => Err(e),
    }
}

fn byte_at(bytes: &[u8], i: usize) -> (r: u8)
    requires
        i < bytes@.len(),
    ensures
        r == bytes@[i as int],
{
    *vstd::slice::slice_index_get(bytes, i)
}

/// The product of the dimension sizes, or `None` when it exceeds
/// `u64::MAX` (in which case the flat payload cannot possibly fit in
/// an addressable byte source).
fn checked_prod(shape: &Vec<i64>) -> (r: Option<u64>)
    requires
        forall|k: int| 0 <= k < shape@.len() ==> shape@[k] >= 0,
    ensures
        match r {
            Some(m) => m as int == prod(shape@),
            None => prod(shape@) > u64::MAX,
        },
{
    let n = shape.len();
    let mut j: usize = 0;
    while j < n
        invariant
            j <= n,
            n == shape@.len(),
            forall|k: int| 0 <= k < j ==> shape@[k] != 0,
        decreases n - j,
    {
        if shape[j] == 0 {
            proof {
                lemma_prod_zero(shape@);
            }
            return Some(0);
        }
        j += 1;
    }
    let mut acc: u64 = 1;
    let mut i: usize = 0;
    while i < n
        invariant
            i <= n,
            n == shape@.len(),
            forall|k: int| 0 <= k < n ==> shape@[k] >= 1,
            acc as int == prod(shape@.take(i as int)),
        decreases n - i,
    {
        proof {
            lemma_prod_step(shape@, i as int);
        }
        match acc.checked_mul(shape[i] as u64) {
            Some(x) => {
                acc = x;
            },
            None => {
                proof {
                    lemma_prod_monotone(shape@, i as int + 1);
                }
                return None;
            },
        }
        i += 1;
    }
    proof {
        assert(shape@.take(n as int) =~= shape@);
    }
    Some(acc)
}

/// Reads a shape block: exactly [`spec_shape`], with the extra
/// guarantee that the flat payload fits between the yielded data
/// position and the end of the slice.
fn read_shape(bytes: &[u8], p: usize) -> (r: Result<(Vec<i64>, usize, usize), TapeError>)
    requires
        p <= bytes@.len(),
    ensures
        match r {
            Ok(t) => {
                &&& spec_shape(bytes@, p as int) == Ok::<(Seq<i64>, int, int), TapeError>(
                    (t.0@, t.1 as int, t.2 as int),
                )
                &&& p + 8 <= t.2
                &&& t.2 + 8 * t.1 <= bytes@.len()
            },
            Err(e) => spec_shape(bytes@, p as int) == Err::<(Seq<i64>, int, int), TapeError>(e),
        },
{
    let total = bytes.len();
    if total - p < 8 {
        return Err(TapeError::Truncated);
    }
    let nd = read_i64_le(bytes, p);
    if nd < 0 {
        return Err(TapeError::BadShape);
    }
    let rem: u64 = (total - (p + 8)) as u64;
    proof {
        assert(8 * (rem as int / 8) + rem as int % 8 == rem as int);
    }
    if (nd as u64) > rem / 8 {
        return Err(TapeError::Truncated);
    }
    proof {
        assert(8 * (nd as int) <= rem as int);
    }
    let nd_us = nd as usize;
    let shape = read_i64s(bytes, p + 8, nd_us);
    let mut j: usize = 0;
    while j < nd_us
        invariant
            j <= nd_us,
            nd_us == shape@.len(),
            nd_us as int == nd as int,
            nd >= 0,
            p + 8 + 8 * (nd as int) <= bytes@.len(),
            nd == i64_at(bytes@, p as int),
            shape@ == i64s_at(bytes@, p as int + 8, nd as nat),
            forall|k: int| 0 <= k < j ==> shape@[k] >= 0,
        decreases nd_us - j,
    {
        if shape[j] < 0 {
            proof {
                assert(shape@[j as int] < 0);
                assert(has_negative(shape@));
                assert(spec_shape(bytes@, p as int) == Err::<(Seq<i64>, int, int), TapeError>(
                    TapeError::BadShape,
                ));
            }
            return Err(TapeError::BadShape);
        }
        j += 1;
    }
    assert(!has_negative(shape@));
    match checked_prod(&shape) {
        None => {
            proof {
                assert(prod(shape@) > usize::MAX as int);
            }
            Err(TapeError::Truncated)
        },
        Some(m) => {
            let dp = p + 8 + 8 * nd_us;
            let rem2: u64 = (total - dp) as u64;
            proof {
                assert(8 * (rem2 as int / 8) + rem2 as int % 8 == rem2 as int);
            }
            if m > rem2 / 8 {
                Err(TapeError::Truncated)
            } else {
                Ok((shape, m as usize, dp))
            }
        },
    }
}

/// Reads one record: exactly [`spec_op`].
fn parse_op(bytes: &[u8], pos: usize) -> (r: Result<(TapeOp, usize), TapeError>)
    requires
        pos < bytes@.len(),
    ensures
        match r {
            Ok(t) => {
                &&& spec_op(bytes@, pos as int) == Ok::<(Op, int), TapeError>((t.0@, t.1 as int))
                &&& pos < t.1 <= bytes@.len()
            },
            Err(e) => spec_op(bytes@, pos as int) == Err::<(Op, int), TapeError>(e),
        },
{
    let total = bytes.len();
    if total - pos < 4 {
        return Err(TapeError::Truncated);
    }
    let t0 = byte_at(bytes, pos);
    let t1 = byte_at(bytes, pos + 1);
    let t2 = byte_at(bytes, pos + 2);
    let t3 = byte_at(bytes, pos + 3);
    if t0 == 0x44 && t1 == 0x72 && t2 == 0x69 && t3 == 0x2e {
        let p = pos + 4;
        if total - p < 16 {
            return Err(TapeError::Truncated);
        }
        let low = read_i64_le(bytes, p);
        let high = read_i64_le(bytes, p + 8);
        match read_shape(bytes, p + 16) {
            Err(e) => Err(e),
            Ok((shape, m, dp)) => {
                let data = read_i64s(bytes, dp, m);
                Ok((TapeOp::RandomIntegers { low, high, shape, data }, dp + 8 * m))
            },
        }
    } else if t0 == 0x44 && t1 == 0x73 && t2 == 0x6e && t3 == 0x2e {
        let p = pos + 4;
        match read_shape(bytes, p) {
            Err(e) => Err(e),
            Ok((shape, m, dp)) => {
                let data = read_u64s(bytes, dp, m);
                Ok((TapeOp::StandardNormal { shape, data }, dp + 8 * m))
            },
        }
    } else if t0 == 0x44 && t1 == 0x6e && t2 == 0x2e && t3 == 0x2e {
        let p = pos + 4;
        if total - p < 16 {
            return Err(TapeError::Truncated);
        }
        let mean_bits = read_u64_le(bytes, p);
        let std_dev_bits = read_u64_le(bytes, p + 8);
        match read_shape(bytes, p + 16) {
            Err(e) => Err(e),
            Ok((_shape, m, dp)) => {
                let data = read_u64s(bytes, dp, m);
                Ok((TapeOp::Normal { mean_bits, std_dev_bits, data }, dp + 8 * m))
            },
        }
    } else {
        Err(TapeError::UnknownTag)
    }
}

/// Parses a whole tape out of a byte source: exactly [`spec_parse`].
pub fn parse_tape(bytes: &[u8]) -> (r: Result<Vec<TapeOp>, TapeError>)
    ensures
        match r {
            Ok(ops) => spec_parse(bytes@) == Ok::<Seq<Op>, TapeError>(ops_view(ops@)),
            Err(e) => spec_parse(bytes@) == Err::<Seq<Op>, TapeError>(e),
        },
{
    let total = bytes.len();
    if total < 7 {
        return Err(TapeError::Truncated);
    }
    if !(byte_at(bytes, 0) == 0x52 && byte_at(bytes, 1) == 0x4e && byte_at(bytes, 2) == 0x47
        && byte_at(bytes, 3) == 0x54 && byte_at(bytes, 4) == 0x41 && byte_at(bytes, 5) == 0x50
        && byte_at(bytes, 6) == 0x45) {
        return Err(TapeError::BadMagic);
    }
    if total < 8 {
        return Err(TapeError::Truncated);
    }
    let mut ops: Vec<TapeOp> = Vec::new();
    let mut pos: usize = 8;
    while pos < total
        invariant
            8 <= pos <= total,
            total == bytes@.len(),
            magic_ok(bytes@),
            spec_ops(bytes@, 8) == with_prefix(ops_view(ops@), spec_ops(bytes@, pos as int)),
        decreases total - pos,
    {
        match parse_op(bytes, pos) {
            Err(e) => {
                proof {
                    assert(spec_ops(bytes@, pos as int) == Err::<Seq<Op>, TapeError>(e));
                    assert(spec_ops(bytes@, 8) == Err::<Seq<Op>, TapeError>(e));
                    assert(magic_ok(bytes@));
                    assert(spec_parse(bytes@) == Err::<Seq<Op>, TapeError>(e));
                }
                return Err(e);
            },
            Ok((op, next)) => {
                proof {
                    let x = spec_ops(bytes@, next as int);
                    assert(spec_ops(bytes@, pos as int) == with_prefix(seq![op@], x));
                    assert(ops_view(ops@.push(op)) =~= ops_view(ops@).push(op@));
                    match x {
                        Ok(rest) => {
                            assert((ops_view(ops@) + (seq![op@] + rest)) =~= (ops_view(
                                ops@.push(op),
                            ) + rest));
                        },
                        Err(_) => {},
                    }
                }
                ops.push(op);
                pos = next;
            },
        }
    }
    proof {
        assert(spec_ops(bytes@, pos as int) == Ok::<Seq<Op>, TapeError>(Seq::empty()));
        assert((ops_view(ops@) + Seq::<Op>::empty()) =~= ops_view(ops@));
        assert(spec_parse(bytes@) == spec_ops(bytes@, 8));
    }
    Ok(ops)
}

} // verus!
