//! The bounded batch of tokens that is handed to the engine for decoding.

use crate::llm::ChatError;
use vstd::prelude::*;

verus! {

/// One token of a batch: the token, its position in the sequence, the
/// sequence it belongs to, and whether the engine is to compute logits
/// after it.
#[derive(Debug, Clone, Copy, PartialEq, Eq, Structural)]
pub struct BatchEntry {
    pub token: i32,
    pub position: i32,
    pub sequence_id: i32,
    pub logits: bool,
}

/// The entries that `tokens` become when they are appended to a sequence
/// that already holds `cursor` tokens: positions count on from `cursor`, and
/// only the last token asks for logits.
pub open spec fn entries_for(tokens: Seq<i32>, cursor: int) -> Seq<BatchEntry> {
    Seq::new(
        tokens.len(),
        |i: int|
            BatchEntry {
                token: tokens[i],
                position: (cursor + i) as i32,
                sequence_id: 0,
                logits: i == tokens.len() - 1,
            },
    )
}

/// The contents of a list of batches, batch by batch.
pub open spec fn batch_views(batches: Seq<Vec<BatchEntry>>) -> Seq<Seq<BatchEntry>> {
    Seq::new(batches.len(), |i: int| batches[i]@)
}

/// Whether `tokens` can be appended at `cursor` through a batch of the given
/// capacity: every position must be addressable, and a batch without room
/// takes no token at all.
pub open spec fn schedulable(tokens: Seq<i32>, cursor: int, capacity: int) -> bool {
    tokens.len() == 0 || (capacity > 0 && cursor + tokens.len() <= i32::MAX)
}

/// Whether `flushed` and `pending` are what flush-on-full scheduling makes
/// of `entries`: the entries in their order, cut into full batches that are
/// decoded at once, and a last batch that is left for the next decode and
/// is empty only if there is no entry. Without entries no batch is handed
/// out.
pub open spec fn scheduled(
    entries: Seq<BatchEntry>,
    capacity: int,
    flushed: Seq<Seq<BatchEntry>>,
    pending: Seq<BatchEntry>,
) -> bool {
    &&& flushed.flatten() + pending == entries
    &&& forall|k: int| 0 <= k < flushed.len() ==> (#[trigger] flushed[k]).len() == capacity
    &&& pending.len() <= capacity
    &&& entries.len() > 0 ==> pending.len() > 0
    &&& entries.len() == 0 ==> flushed.len() == 0
}

/// A bounded buffer of batch entries.
pub struct Batch {
    entries: Vec<BatchEntry>,
    capacity: usize,
}

impl View for Batch {
    type V = Seq<BatchEntry>;

    closed spec fn view(&self) -> Seq<BatchEntry> {
        self.entries@
    }
}

impl Batch {
    #[verifier::type_invariant]
    spec fn within_capacity(&self) -> bool {
        self.entries.len() <= self.capacity
    }

    /// The number of entries that the batch can hold.
    pub closed spec fn limit(&self) -> nat {
        self.capacity as nat
    }

    /// An empty batch for at most `capacity` entries.
    pub fn new(capacity: usize) -> (batch: Batch)
        ensures
            batch@ == Seq::<BatchEntry>::empty(),
            batch.limit() == capacity,
    {
        Batch { entries: Vec::new(), capacity }
    }

    /// The number of entries that the batch can hold.
    pub fn capacity(&self) -> (n: usize)
        ensures
            n == self.limit(),
            self@.len() <= n,
    {
        proof {
            use_type_invariant(self);
        }
        self.capacity
    }

    /// The number of entries in the batch.
    pub fn n_tokens(&self) -> (n: usize)
        ensures
            n == self@.len(),
            n <= self.limit(),
    {
        proof {
            use_type_invariant(self);
        }
        self.entries.len()
    }

    /// The entries of the batch, in the order in which they were added.
    pub fn entries(&self) -> (entries: &Vec<BatchEntry>)
        ensures
            entries@ == self@,
    {
        &self.entries
    }

    /// Empties the batch.
    pub fn clear(&mut self)
        ensures
            final(self)@ == Seq::<BatchEntry>::empty(),
            final(self).limit() == old(self).limit(),
    {
        self.entries = Vec::new();
    }

    /// Appends one token of sequence 0 to the batch, unless the batch is
    /// full: then the batch stays as it is.
    pub fn add(&mut self, token: i32, position: i32, logits: bool) -> (r: Result<(), ChatError>)
        ensures
            final(self).limit() == old(self).limit(),
            old(self)@.len() < old(self).limit() ==> r is Ok && final(self)@ == old(self)@.push(
                BatchEntry { token, position, sequence_id: 0, logits },
            ),
            old(self)@.len() >= old(self).limit() ==> r == Err::<(), ChatError>(
                ChatError::InsufficientSpace,
            ) && final(self)@ == old(self)@,
    {
        proof {
            use_type_invariant(&*self);
        }
        if self.entries.len() >= self.capacity {
            return Err(ChatError::InsufficientSpace);
        }
        let mut entries: Vec<BatchEntry> = Vec::new();
        std::mem::swap(&mut entries, &mut self.entries);
        entries.push(BatchEntry { token, position, sequence_id: 0, logits });
        self.entries = entries;
        Ok(())
    }

    /// Schedules `tokens` for a sequence that already holds `cursor` tokens.
    ///
    /// The batch is emptied and the tokens are added in order. Whenever the
    /// batch is full and more tokens follow, it is handed out for immediate
    /// decoding and emptied again. The result lists the batches handed out,
    /// in the order in which they are to be decoded; the tokens after them
    /// stay in the batch, the last of them asking for logits.
    ///
    /// Nothing is scheduled, and the batch is left as it was, when there is
    /// a token but no room in the batch, or when a position would exceed
    /// the engine's range.
    pub fn fill(&mut self, tokens: &[i32], cursor: usize) -> (r: Result<
        Vec<Vec<BatchEntry>>,
        ChatError,
    >)
        ensures
            final(self).limit() == old(self).limit(),
            match r {
                Ok(flushed) => {
                    &&& schedulable(tokens@, cursor as int, old(self).limit() as int)
                    &&& scheduled(
                        entries_for(tokens@, cursor as int),
                        old(self).limit() as int,
                        batch_views(flushed@),
                        final(self)@,
                    )
                },
                Err(e) => {
                    &&& !schedulable(tokens@, cursor as int, old(self).limit() as int)
                    &&& final(self)@ == old(self)@
                    &&& e == if old(self).limit() == 0 {
                        ChatError::InsufficientSpace
                    } else {
                        ChatError::PositionOverflow
                    }
                },
            },
    {
        let n = tokens.len();
        let capacity = self.capacity;
        let ghost entries = entries_for(tokens@, cursor as int);
        if n == 0 {
            self.entries = Vec::new();
            let flushed: Vec<Vec<BatchEntry>> = Vec::new();
            assert(batch_views(flushed@) =~= Seq::<Seq<BatchEntry>>::empty());
            assert(batch_views(flushed@).flatten() + self@ =~= entries);
            return Ok(flushed);
        }
        if capacity == 0 {
            return Err(ChatError::InsufficientSpace);
        }
        if cursor > i32::MAX as usize || n > i32::MAX as usize - cursor {
            return Err(ChatError::PositionOverflow);
        }
        let mut flushed: Vec<Vec<BatchEntry>> = Vec::new();
        let mut current: Vec<BatchEntry> = Vec::new();
        let mut i: usize = 0;
        assert(batch_views(flushed@) =~= Seq::<Seq<BatchEntry>>::empty());
        assert(batch_views(flushed@).flatten() + current@ =~= entries.take(0));
        while i < n
            invariant
                n == tokens.len(),
                0 < n,
                0 < capacity,
                cursor + n <= i32::MAX,
                i <= n,
                entries == entries_for(tokens@, cursor as int),
                batch_views(flushed@).flatten() + current@ == entries.take(i as int),
                forall|k: int|
                    0 <= k < flushed.len() ==> (#[trigger] batch_views(flushed@)[k]).len()
                        == capacity,
                i < n ==> current.len() < capacity,
                i == n ==> 0 < current.len() <= capacity,
            decreases n - i,
        {
            let is_last = i == n - 1;
            let entry = BatchEntry {
                token: tokens[i],
                position: (cursor + i) as i32,
                sequence_id: 0,
                logits: is_last,
            };
            assert(entry == entries[i as int]);
            let ghost before = current@;
            current.push(entry);
            assert(batch_views(flushed@).flatten() + current@ =~= entries.take(i + 1)) by {
                assert(entries.take(i + 1) =~= entries.take(i as int).push(entry));
                assert(current@ == before.push(entry));
            }
            if !is_last && current.len() == capacity {
                let ghost done = batch_views(flushed@);
                let ghost full = current@;
                flushed.push(current);
                current = Vec::new();
                proof {
                    assert(batch_views(flushed@) =~= done.push(full));
                    done.lemma_flatten_push(full);
                    assert(batch_views(flushed@).flatten() + current@ =~= done.flatten() + full);
                }
            }
            i += 1;
        }
        assert(entries.take(n as int) =~= entries);
        self.entries = current;
        Ok(flushed)
    }
}

/// Flush-on-full scheduling leaves no choice: the entries and the capacity
/// fix how many batches are handed out and what stays behind, so two
/// schedules of the same entries are the same.
pub proof fn law_schedule_unique(
    entries: Seq<BatchEntry>,
    capacity: int,
    flushed_a: Seq<Seq<BatchEntry>>,
    pending_a: Seq<BatchEntry>,
    flushed_b: Seq<Seq<BatchEntry>>,
    pending_b: Seq<BatchEntry>,
)
    requires
        scheduled(entries, capacity, flushed_a, pending_a),
        scheduled(entries, capacity, flushed_b, pending_b),
    ensures
        flushed_a == flushed_b,
        pending_a == pending_b,
    decreases flushed_a.len(),
{
    if entries.len() == 0 {
        assert(flushed_a =~= flushed_b);
        assert(flushed_a.flatten() =~= Seq::<BatchEntry>::empty());
        assert(pending_a =~= entries);
        assert(pending_b =~= entries);
    } else {
        lemma_full_batches_length(flushed_a, capacity);
        lemma_full_batches_length(flushed_b, capacity);
        let fa = flushed_a.len() as int;
        let fb = flushed_b.len() as int;
        assert(fa == fb) by (nonlinear_arith)
            requires
                fa * capacity + pending_a.len() == fb * capacity + pending_b.len(),
                0 < pending_a.len() <= capacity,
                0 < pending_b.len() <= capacity,
        ;
        if fa == 0 {
            assert(flushed_a =~= flushed_b);
            assert(flushed_a.flatten() =~= Seq::<BatchEntry>::empty());
            assert(pending_a =~= entries);
            assert(pending_b =~= entries);
        } else {
            let first_a = flushed_a.first();
            let first_b = flushed_b.first();
            let rest = entries.subrange(capacity, entries.len() as int);
            assert(entries =~= first_a + (flushed_a.drop_first().flatten() + pending_a));
            assert(entries =~= first_b + (flushed_b.drop_first().flatten() + pending_b));
            assert(first_a =~= entries.subrange(0, capacity));
            assert(first_b =~= entries.subrange(0, capacity));
            assert(rest =~= flushed_a.drop_first().flatten() + pending_a);
            assert(rest =~= flushed_b.drop_first().flatten() + pending_b);
            law_schedule_unique(
                rest,
                capacity,
                flushed_a.drop_first(),
                pending_a,
                flushed_b.drop_first(),
                pending_b,
            );
            assert(flushed_a =~= seq![first_a] + flushed_a.drop_first());
            assert(flushed_b =~= seq![first_b] + flushed_b.drop_first());
        }
    }
}

/// Batches that are all full hold, together, their number times the
/// capacity.
pub proof fn lemma_full_batches_length(batches: Seq<Seq<BatchEntry>>, capacity: int)
    requires
        forall|k: int| 0 <= k < batches.len() ==> (#[trigger] batches[k]).len() == capacity,
    ensures
        batches.flatten().len() == batches.len() * capacity,
    decreases batches.len(),
{
    if batches.len() == 0 {
    } else {
        let rest = batches.drop_first();
        assert forall|k: int| 0 <= k < rest.len() implies (#[trigger] rest[k]).len()
            == capacity by {
            assert(rest[k] == batches[k + 1]);
        }
        lemma_full_batches_length(rest, capacity);
        assert(batches.flatten() == batches.first() + rest.flatten());
        assert(batches.len() * capacity == rest.len() * capacity + capacity) by (nonlinear_arith)
            requires
                batches.len() == rest.len() + 1,
        ;
    }
}

} // verus!
