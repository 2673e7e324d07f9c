//! The replay cursor and the replay facade: strictly forward,
//! exhaustible traversal of the tape's flat value stream, one scalar
//! per successful `sample` call.

use vstd::prelude::*;
use crate::dispatch::{extract, sample_value, spec_extract, lemma_extract_value, Sample};
use crate::distributions::DistRequest;
use crate::error::TapeError;
use crate::parse::{parse_tape, spec_parse};
use crate::tape::{flat, len_prefix, op_len, ops_view, Op, TapeOp};
use crate::tape::{lemma_flat_index, lemma_len_prefix_le_flat};

verus! {

/// The mathematical model of a replay session: the parsed operations
/// and the cursor over them.
pub struct TapeModel {
    pub closed: bool,
    pub ops: Seq<Op>,
    pub op_ctr: int,
    pub data_off: int,
}

/// The cursor's invariant.  While open it points at a real scalar:
/// the operation index is in range and the offset lies strictly inside
/// that operation's flat payload.  Once closed it rests past the end,
/// irreversibly.
pub open spec fn wf(m: TapeModel) -> bool {
    if m.closed {
        m.op_ctr == m.ops.len() && m.data_off == 0
    } else {
        0 <= m.op_ctr < m.ops.len() && 0 <= m.data_off < op_len(m.ops[m.op_ctr])
    }
}

/// How many scalars of the flat stream the cursor has consumed.
pub open spec fn consumed(m: TapeModel) -> int {
    len_prefix(m.ops, m.op_ctr) + m.data_off
}

/// A well-formed cursor is closed exactly when every recorded scalar
/// has been consumed: exhaustion is a position, not a separate state.
pub proof fn lemma_wf_consumed(m: TapeModel)
    requires
        wf(m),
    ensures
        0 <= consumed(m) <= flat(m.ops).len(),
        m.closed <==> consumed(m) == flat(m.ops).len(),
{
    lemma_len_prefix_le_flat(m.ops, if m.closed { m.op_ctr } else { m.op_ctr + 1 });
    lemma_len_prefix_le_flat(m.ops, m.op_ctr);
    lemma_len_prefix_le_flat(m.ops, m.ops.len() as int);
    if !m.closed {
        assert(len_prefix(m.ops, m.op_ctr + 1) == len_prefix(m.ops, m.op_ctr) + op_len(
            m.ops[m.op_ctr],
        ));
    }
}

/// The replay cursor: the parsed tape, owned exclusively, and the
/// traversal position.
pub struct TapeState {
    closed: bool,
    ops: Vec<TapeOp>,
    op_ctr: usize,
    data_off: usize,
}

impl View for TapeState {
    type V = TapeModel;

    closed spec fn view(&self) -> TapeModel {
        TapeModel {
            closed: self.closed,
            ops: ops_view(self.ops@),
            op_ctr: self.op_ctr as int,
            data_off: self.data_off as int,
        }
    }
}

impl TapeState {
    /// Whether the cursor still points at an unconsumed scalar.
    pub fn is_open(&self) -> (r: bool)
        ensures
            r == !self@.closed,
    {
        !self.closed
    }

    /// Builds the cursor over freshly parsed operations, at the first
    /// recorded scalar (index 0, offset 0); a tape with no scalars at
    /// all starts out closed, so any read fails fast.
    pub(crate) fn new(ops: Vec<TapeOp>) -> (r: TapeState)
        ensures
            wf(r@),
            r@.ops == ops_view(ops@),
            consumed(r@) == 0,
    {
        let mut state = TapeState { closed: false, ops, op_ctr: 0, data_off: 0 };
        state.settle();
        state
    }

    /// Moves the cursor off the end of a fully consumed operation to
    /// the next operation that still carries a scalar, closing the
    /// cursor when none is left.  Consumes nothing: the count of
    /// consumed scalars is unchanged.
    fn settle(&mut self)
        requires
            !old(self)@.closed,
            0 <= old(self)@.op_ctr <= old(self)@.ops.len(),
            old(self)@.op_ctr < old(self)@.ops.len() ==> 0 <= old(self)@.data_off <= op_len(
                old(self)@.ops[old(self)@.op_ctr],
            ),
            old(self)@.op_ctr == old(self)@.ops.len() ==> old(self)@.data_off == 0,
        ensures
            wf(final(self)@),
            final(self)@.ops == old(self)@.ops,
            consumed(final(self)@) == consumed(old(self)@),
    {
        let n = self.ops.len();
        while self.op_ctr < n && self.data_off == self.ops[self.op_ctr].data_len()
            invariant
                !self@.closed,
                n == self@.ops.len(),
                0 <= self@.op_ctr <= n,
                self@.op_ctr < n ==> 0 <= self@.data_off <= op_len(self@.ops[self@.op_ctr]),
                self@.op_ctr == n ==> self@.data_off == 0,
                self@.ops == old(self)@.ops,
                consumed(self@) == consumed(old(self)@),
            decreases n - self.op_ctr,
        {
            proof {
                assert(len_prefix(self@.ops, self@.op_ctr + 1) == len_prefix(
                    self@.ops,
                    self@.op_ctr,
                ) + op_len(self@.ops[self@.op_ctr]));
            }
            self.op_ctr += 1;
            self.data_off = 0;
        }
        if self.op_ctr == n {
            self.closed = true;
        }
    }

    /// The one mutator of a live cursor: steps past the scalar just
    /// consumed, rolling over to the next value-carrying operation, and
    /// closes the cursor the instant the last scalar is gone.
    pub(crate) fn advance(&mut self)
        requires
            wf(old(self)@),
            !old(self)@.closed,
        ensures
            wf(final(self)@),
            final(self)@.ops == old(self)@.ops,
            consumed(final(self)@) == consumed(old(self)@) + 1,
    {
        let cur_len = self.ops[self.op_ctr].data_len();
        proof {
            assert(old(self)@.data_off < cur_len as int);
        }
        self.data_off += 1;
        self.settle();
    }
}

/// A replay session: the single consumer-facing handle over a parsed
/// tape.
pub struct ReplayTapeRng {
    state: TapeState,
}

impl View for ReplayTapeRng {
    type V = TapeModel;

    closed spec fn view(&self) -> TapeModel {
        self.state@
    }
}

impl ReplayTapeRng {
    /// Builds a session straight from parsed operation records, cursor
    /// at the first recorded scalar.
    pub fn from_ops(ops: Vec<TapeOp>) -> (r: ReplayTapeRng)
        ensures
            wf(r@),
            r@.ops == ops_view(ops@),
            consumed(r@) == 0,
    {
        ReplayTapeRng { state: TapeState::new(ops) }
    }

    /// Opens a replay session over a whole tape byte source: parses it
    /// eagerly — exactly [`spec_parse`] — and puts the cursor on the
    /// first recorded scalar.  A corrupt source fails here, before any
    /// `sample` call is possible.
    pub fn from_bytes(bytes: &[u8]) -> (r: Result<ReplayTapeRng, TapeError>)
        ensures
            match r {
                Ok(rng) => {
                    &&& spec_parse(bytes@) == Ok::<Seq<Op>, TapeError>(rng@.ops)
                    &&& wf(rng@)
                    &&& consumed(rng@) == 0
                },
                Err(e) => spec_parse(bytes@) == Err::<Seq<Op>, TapeError>(e),
            },
    {
        match parse_tape(bytes) {
            Ok(ops) => Ok(ReplayTapeRng::from_ops(ops)),
            Err(e) => Err(e),
        }
    }

    /// Whether another `sample` call can still succeed.
    pub fn is_open(&self) -> (r: bool)
        ensures
            r == !self@.closed,
    {
        self.state.is_open()
    }

    /// The single sampling entry point.
    ///
    /// On a closed cursor it fails with `TapeExhausted` and changes
    /// nothing.  Otherwise it dispatches `req` against the operation
    /// the cursor points at — exactly [`spec_extract`] — and, on
    /// success, returns the recorded scalar at the cursor's position in
    /// the flat stream and advances the cursor by exactly one scalar.
    /// On any failure the cursor does not move.
    pub fn sample(&mut self, req: &DistRequest) -> (r: Result<Sample, TapeError>)
        requires
            wf(old(self)@),
        ensures
            wf(final(self)@),
            final(self)@.ops == old(self)@.ops,
            old(self)@.closed ==> r == Err::<Sample, TapeError>(TapeError::TapeExhausted)
                && final(self)@ == old(self)@,
            !old(self)@.closed ==> r == spec_extract(
                old(self)@.ops[old(self)@.op_ctr],
                *req,
                old(self)@.data_off,
            ),
            !old(self)@.closed && r is Err ==> final(self)@ == old(self)@,
            !old(self)@.closed && r is Ok ==> {
                &&& 0 <= consumed(old(self)@) < flat(old(self)@.ops).len()
                &&& sample_value(r->Ok_0) == flat(old(self)@.ops)[consumed(old(self)@)]
                &&& consumed(final(self)@) == consumed(old(self)@) + 1
            },
    {
        if !self.state.is_open() {
            return Err(TapeError::TapeExhausted);
        }
        let off = self.state.data_off;
        let r = extract(&self.state.ops[self.state.op_ctr], req, off);
        match r {
            Ok(v) => {
                proof {
                    lemma_extract_value(self@.ops[self@.op_ctr], *req, self@.data_off);
                    lemma_flat_index(self@.ops, self@.op_ctr, self@.data_off);
                }
                self.state.advance();
                Ok(v)
            },
            Err(e) => Err(e),
        }
    }
}

} // verus!
