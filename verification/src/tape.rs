//! The tape's data model: typed operation records, their mathematical
//! model, and the flat stream of recorded values that replay walks.

use vstd::prelude::*;

verus! {

/// One recorded batch of random draws.
///
/// Floating-point payloads (standard-normal and normal draws, and the
/// normal parameters) are held as raw IEEE-754 `u64` bit patterns: replay
/// never computes with them, it only hands them back verbatim and
/// compares them for exact (bit) equality.
pub enum TapeOp {
    RandomIntegers { low: i64, high: i64, shape: Vec<i64>, data: Vec<i64> },
    StandardNormal { shape: Vec<i64>, data: Vec<u64> },
    Normal { mean_bits: u64, std_dev_bits: u64, data: Vec<u64> },
}

/// The mathematical model of a [`TapeOp`].
pub enum Op {
    RandomIntegers { low: i64, high: i64, shape: Seq<i64>, data: Seq<i64> },
    StandardNormal { shape: Seq<i64>, data: Seq<u64> },
    Normal { mean_bits: u64, std_dev_bits: u64, data: Seq<u64> },
}

impl View for TapeOp {
    type V = Op;

    open spec fn view(&self) -> Op {
        match self {
            TapeOp::RandomIntegers { low, high, shape, data } => Op::RandomIntegers {
                low: *low,
                high: *high,
                shape: shape@,
                data: data@,
            },
            TapeOp::StandardNormal { shape, data } => Op::StandardNormal {
                shape: shape@,
                data: data@,
            },
            TapeOp::Normal { mean_bits, std_dev_bits, data } => Op::Normal {
                mean_bits: *mean_bits,
                std_dev_bits: *std_dev_bits,
                data: data@,
            },
        }
    }
}

/// One recorded scalar, as it stands in the flat value stream: a signed
/// integer, or a float by its bit pattern.
pub enum Value {
    Int(i64),
    Float(u64),
}

/// The models of a sequence of operation records.
pub open spec fn ops_view(ops: Seq<TapeOp>) -> Seq<Op> {
    ops.map_values(|op: TapeOp| op@)
}

/// The flat value payload of one operation, in recorded order.
pub open spec fn op_data(op: Op) -> Seq<Value> {
    match op {
        Op::RandomIntegers { data, .. } => data.map_values(|v: i64| Value::Int(v)),
        Op::StandardNormal { data, .. } => data.map_values(|v: u64| Value::Float(v)),
        Op::Normal { data, .. } => data.map_values(|v: u64| Value::Float(v)),
    }
}

/// How many scalars one operation carries.
pub open spec fn op_len(op: Op) -> nat {
    op_data(op).len()
}

/// The whole tape's values, flattened in recorded order: the exact
/// sequence that successful `sample` calls return, one scalar each.
pub open spec fn flat(ops: Seq<Op>) -> Seq<Value>
    decreases ops.len(),
{
    if ops.len() == 0 {
        Seq::empty()
    } else {
        op_data(ops[0]) + flat(ops.drop_first())
    }
}

/// The number of scalars carried by the first `k` operations.
pub open spec fn len_prefix(ops: Seq<Op>, k: int) -> nat
    recommends
        0 <= k <= ops.len(),
    decreases k,
{
    if k <= 0 {
        0
    } else {
        (len_prefix(ops, k - 1) + op_len(ops[k - 1])) as nat
    }
}

/// The product of a shape's dimension sizes: how many scalars the shape
/// spans when flattened.
pub open spec fn prod(s: Seq<i64>) -> int
    decreases s.len(),
{
    if s.len() == 0 {
        1
    } else {
        prod(s.drop_last()) * s.last()
    }
}

/// An operation's structural invariant, established by the parser: the
/// flat payload is exactly as long as the recorded shape spans.  (The
/// parameterized-normal record keeps no shape in memory, so only its
/// length survives parsing.)
pub open spec fn op_wf(op: Op) -> bool {
    match op {
        Op::RandomIntegers { shape, data, .. } => data.len() == prod(shape),
        Op::StandardNormal { shape, data } => data.len() == prod(shape),
        Op::Normal { .. } => true,
    }
}

pub proof fn lemma_prod_zero(s: Seq<i64>)
    requires
        exists|k: int| 0 <= k < s.len() && s[k] == 0,
    ensures
        prod(s) == 0,
    decreases s.len(),
{
    let k = choose|k: int| 0 <= k < s.len() && s[k] == 0;
    if k == s.len() - 1 {
        assert(prod(s) == prod(s.drop_last()) * s.last());
    } else {
        assert(s.drop_last()[k] == 0);
        lemma_prod_zero(s.drop_last());
        assert(prod(s) == prod(s.drop_last()) * s.last());
    }
}

pub proof fn lemma_prod_step(s: Seq<i64>, j: int)
    requires
        0 <= j < s.len(),
    ensures
        prod(s.take(j + 1)) == prod(s.take(j)) * s[j],
{
    assert(s.take(j + 1).drop_last() =~= s.take(j));
    assert(s.take(j + 1).last() == s[j]);
}

/// With every dimension at least 1, the product is at least 1.
pub proof fn lemma_prod_pos(s: Seq<i64>)
    requires
        forall|k: int| 0 <= k < s.len() ==> s[k] >= 1,
    ensures
        prod(s) >= 1,
    decreases s.len(),
{
    if s.len() > 0 {
        lemma_prod_pos(s.drop_last());
        assert(prod(s) == prod(s.drop_last()) * s.last());
        assert(prod(s.drop_last()) * s.last() >= 1) by (nonlinear_arith)
            requires
                prod(s.drop_last()) >= 1,
                s.last() >= 1,
        {
        }
    }
}

/// With every dimension at least 1, the full product dominates the
/// product of any prefix of the dimensions, and both are at least 1.
pub proof fn lemma_prod_monotone(s: Seq<i64>, j: int)
    requires
        0 <= j <= s.len(),
        forall|k: int| 0 <= k < s.len() ==> s[k] >= 1,
    ensures
        prod(s.take(j)) >= 1,
        prod(s) >= prod(s.take(j)),
    decreases s.len() - j,
{
    if j == s.len() {
        assert(s.take(j) =~= s);
        lemma_prod_pos(s);
    } else {
        lemma_prod_monotone(s, j + 1);
        lemma_prod_step(s, j);
        assert(prod(s.take(j + 1)) >= prod(s.take(j)) && prod(s.take(j)) >= 1) by (nonlinear_arith)
            requires
                prod(s.take(j + 1)) == prod(s.take(j)) * s[j],
                s[j] >= 1,
                prod(s.take(j + 1)) >= 1,
        {
        }
    }
}

pub proof fn lemma_prod_nonneg(s: Seq<i64>)
    requires
        forall|k: int| 0 <= k < s.len() ==> s[k] >= 0,
    ensures
        prod(s) >= 0,
    decreases s.len(),
{
    if s.len() > 0 {
        lemma_prod_nonneg(s.drop_last());
        assert(prod(s) == prod(s.drop_last()) * s.last());
        assert(prod(s.drop_last()) * s.last() >= 0) by (nonlinear_arith)
            requires
                prod(s.drop_last()) >= 0,
                s.last() >= 0,
        {
        }
    }
}

/// `len_prefix` over one more operation grows by that operation's length.
pub proof fn lemma_len_prefix_drop_first(ops: Seq<Op>, k: int)
    requires
        0 <= k,
        ops.len() > 0,
        k <= ops.len() - 1,
    ensures
        len_prefix(ops, k + 1) == op_len(ops[0]) + len_prefix(ops.drop_first(), k),
    decreases k,
{
    if k == 0 {
        assert(len_prefix(ops, 0) == 0);
        assert(len_prefix(ops.drop_first(), 0) == 0);
        assert(len_prefix(ops, 1) == op_len(ops[0]));
    } else {
        lemma_len_prefix_drop_first(ops, k - 1);
        assert(ops.drop_first()[k - 1] == ops[k]);
    }
}

/// The first `k` operations never carry more scalars than the whole tape.
pub proof fn lemma_len_prefix_le_flat(ops: Seq<Op>, k: int)
    requires
        0 <= k <= ops.len(),
    ensures
        len_prefix(ops, k) <= flat(ops).len(),
        len_prefix(ops, ops.len() as int) == flat(ops).len(),
    decreases ops.len(),
{
    if ops.len() == 0 {
    } else {
        lemma_len_prefix_le_flat(ops.drop_first(), if k == 0 { 0 } else { k - 1 });
        lemma_len_prefix_le_flat(ops.drop_first(), ops.len() - 1);
        if k > 0 {
            lemma_len_prefix_drop_first(ops, k - 1);
        }
        lemma_len_prefix_drop_first(ops, ops.len() - 1);
    }
}

/// Indexing into the flat stream: the scalar at stream position
/// `len_prefix(ops, i) + off` is the scalar at offset `off` of
/// operation `i`.
pub proof fn lemma_flat_index(ops: Seq<Op>, i: int, off: int)
    requires
        0 <= i < ops.len(),
        0 <= off < op_len(ops[i]),
    ensures
        len_prefix(ops, i) + off < flat(ops).len(),
        flat(ops)[len_prefix(ops, i) + off] == op_data(ops[i])[off],
    decreases i,
{
    lemma_len_prefix_le_flat(ops, i);
    lemma_len_prefix_le_flat(ops, ops.len() as int);
    if i == 0 {
        assert(flat(ops) == op_data(ops[0]) + flat(ops.drop_first()));
        assert(flat(ops)[off] == op_data(ops[0])[off]);
    } else {
        lemma_flat_index(ops.drop_first(), i - 1, off);
        lemma_len_prefix_drop_first(ops, i - 1);
        assert(ops.drop_first()[i - 1] == ops[i]);
        assert(flat(ops) == op_data(ops[0]) + flat(ops.drop_first()));
        assert(flat(ops)[len_prefix(ops, i) + off] == flat(ops.drop_first())[len_prefix(
            ops.drop_first(),
            i - 1,
        ) + off]);
    }
}

impl TapeOp {
    /// How many scalars this operation carries.
    pub fn data_len(&self) -> (r: usize)
        ensures
            r == op_len(self@),
    {
        match self {
            TapeOp::RandomIntegers { data, .. } => data.len(),
            TapeOp::StandardNormal { data, .. } => data.len(),
            TapeOp::Normal { data, .. } => data.len(),
        }
    }
}

} // verus!
