//! The token sequence that a context builds up in the engine: how many
//! tokens it holds, and the batch that is decoded next.

use crate::llm::batch::{batch_views, entries_for, schedulable, scheduled, Batch, BatchEntry};
use crate::llm::ChatError;
use vstd::prelude::*;

verus! {

/// The mathematical value of a [`Sequence`].
pub struct SequenceView {
    /// The number of tokens that were appended since the sequence began.
    pub cursor: nat,
    /// The entries that the next decode takes.
    pub batch: Seq<BatchEntry>,
    /// The number of entries that the engine decodes at once.
    pub capacity: nat,
    /// The token that ends the sequence.
    pub eos: i32,
}

impl SequenceView {
    /// The sequence at its beginning: no token appended, nothing to decode.
    pub open spec fn restarted(self) -> SequenceView {
        SequenceView { cursor: 0, batch: Seq::empty(), ..self }
    }

    /// Whether `tokens` can be appended: their positions are in the engine's
    /// range, and there is room in the batch if there is a token at all.
    pub open spec fn takes(self, tokens: Seq<i32>) -> bool {
        schedulable(tokens, self.cursor as int, self.capacity as int)
    }

    /// The error with which tokens that cannot be appended are refused:
    /// without room in the batch no token is taken at all, and with room
    /// the positions are out of range.
    pub open spec fn refusal(self) -> ChatError {
        if self.capacity == 0 {
            ChatError::InsufficientSpace
        } else {
            ChatError::PositionOverflow
        }
    }

    /// The sequence once `tokens` were appended and `pending` is what stays
    /// in the batch.
    pub open spec fn after_tokens(
        self,
        tokens: Seq<i32>,
        pending: Seq<BatchEntry>,
    ) -> SequenceView {
        SequenceView { cursor: self.cursor + tokens.len(), batch: pending, ..self }
    }

    /// The sequence once a sampled token was appended: the token is the
    /// only entry of the batch, at the cursor's position, asking for logits.
    pub open spec fn sampled(self, token: i32) -> SequenceView {
        self.after_tokens(seq![token], entries_for(seq![token], self.cursor as int))
    }

    /// Whether `result` and `after` are what appending `tokens` gives.
    ///
    /// Tokens that can be appended get the positions from the cursor on and
    /// are scheduled by flush-on-full: the result lists the full batches to
    /// decode at once, the rest stays in the batch, and the cursor advances
    /// by the number of tokens. Tokens that cannot be appended are refused,
    /// and the sequence stays as it is.
    pub open spec fn appends(
        self,
        tokens: Seq<i32>,
        result: Result<Seq<Seq<BatchEntry>>, ChatError>,
        after: SequenceView,
    ) -> bool {
        match result {
            Ok(flushed) => {
                &&& self.takes(tokens)
                &&& scheduled(
                    entries_for(tokens, self.cursor as int),
                    self.capacity as int,
                    flushed,
                    after.batch,
                )
                &&& after == self.after_tokens(tokens, after.batch)
            },
            Err(e) => {
                &&& !self.takes(tokens)
                &&& after == self
                &&& e == self.refusal()
            },
        }
    }

    /// Whether `result` and `after` are what appending a sampled token
    /// gives: the token is appended and the result says whether it ends the
    /// sequence, or the token is refused and the sequence stays as it is.
    pub open spec fn samples(
        self,
        token: i32,
        result: Result<bool, ChatError>,
        after: SequenceView,
    ) -> bool {
        match result {
            Ok(ends) => {
                &&& self.takes(seq![token])
                &&& ends == (token == self.eos)
                &&& after == self.sampled(token)
            },
            Err(e) => {
                &&& !self.takes(seq![token])
                &&& after == self
                &&& e == self.refusal()
            },
        }
    }
}

/// The contents of the batches that a submission handed out, or its error.
pub open spec fn flushed_views(result: Result<Vec<Vec<BatchEntry>>, ChatError>) -> Result<
    Seq<Seq<BatchEntry>>,
    ChatError,
> {
    match result {
        Ok(flushed) => Ok(batch_views(flushed@)),
        Err(e) => Err(e),
    }
}

/// The token sequence of a context.
pub struct Sequence {
    batch: Batch,
    n_cur: usize,
    eos: i32,
}

impl View for Sequence {
    type V = SequenceView;

    closed spec fn view(&self) -> SequenceView {
        SequenceView {
            cursor: self.n_cur as nat,
            batch: self.batch@,
            capacity: self.batch.limit(),
            eos: self.eos,
        }
    }
}

impl Sequence {
    /// A sequence without tokens, for an engine that decodes at most
    /// `n_batch` tokens at once and ends a sequence with the token `eos`.
    pub fn new(n_batch: usize, eos: i32) -> (sequence: Sequence)
        ensures
            sequence@ == (SequenceView {
                cursor: 0,
                batch: Seq::empty(),
                capacity: n_batch as nat,
                eos,
            }),
    {
        Sequence { batch: Batch::new(n_batch), n_cur: 0, eos }
    }

    /// The number of tokens that were appended since the sequence began.
    pub fn cursor(&self) -> (n: usize)
        ensures
            n == self@.cursor,
    {
        self.n_cur
    }

    /// The batch that the next decode takes.
    pub fn batch(&self) -> (batch: &Batch)
        ensures
            batch@ == self@.batch,
            batch.limit() == self@.capacity,
    {
        &self.batch
    }

    /// Begins the sequence anew: the cursor goes back to 0 and the batch is
    /// emptied.
    pub fn restart(&mut self)
        ensures
            final(self)@ == old(self)@.restarted(),
    {
        self.batch.clear();
        self.n_cur = 0;
    }

    /// Appends the tokens of a turn. The result lists the batches that the
    /// engine is to decode now, in order; the last batch stays in the
    /// sequence.
    pub fn submit_tokens(&mut self, tokens: &[i32]) -> (r: Result<Vec<Vec<BatchEntry>>, ChatError>)
        ensures
            old(self)@.appends(tokens@, flushed_views(r), final(self)@),
    {
        match self.batch.fill(tokens, self.n_cur) {
            Ok(flushed) => {
                self.n_cur = self.n_cur + tokens.len();
                Ok(flushed)
            },
            Err(e) => Err(e),
        }
    }

    /// Appends the token that the engine sampled and says whether it ends
    /// the sequence.
    pub fn take_a_token(&mut self, token: i32) -> (r: Result<bool, ChatError>)
        ensures
            old(self)@.samples(token, r, final(self)@),
    {
        let one = vec![token];
        assert(one@ =~= seq![token]);
        match self.submit_tokens(one.as_slice()) {
            Ok(flushed) => {
                proof {
                    lemma_single_entry_stays(
                        entries_for(seq![token], old(self)@.cursor as int),
                        old(self)@.capacity as int,
                        batch_views(flushed@),
                        self@.batch,
                    );
                }
                Ok(token == self.eos)
            },
            Err(e) => Err(e),
        }
    }
}

/// A schedule of a single entry hands nothing out: the entry stays in the
/// batch.
pub proof fn lemma_single_entry_stays(
    entries: Seq<BatchEntry>,
    capacity: int,
    flushed: Seq<Seq<BatchEntry>>,
    pending: Seq<BatchEntry>,
)
    requires
        entries.len() == 1,
        scheduled(entries, capacity, flushed, pending),
    ensures
        flushed.len() == 0,
        pending == entries,
{
    crate::llm::batch::lemma_full_batches_length(flushed, capacity);
    assert(flushed.len() == 0) by (nonlinear_arith)
        requires
            flushed.len() * capacity + pending.len() == 1,
            0 < pending.len() <= capacity,
    ;
    assert(flushed.flatten() =~= Seq::<BatchEntry>::empty());
    assert(pending =~= entries);
}

} // verus!
