//! Chunk buffer: accumulates normalized samples and hands off completed
//! fixed-size chunks.
//!
//! The buffer holds fewer samples than its threshold between calls. Each
//! batch of incoming samples is appended and every full slice of exactly
//! `threshold` samples is drained off in capture order; a final partial
//! slice stays buffered and is never handed off on its own.

use vstd::prelude::*;
use vstd::arithmetic::div_mod::{lemma_fundamental_div_mod, lemma_fundamental_div_mod_converse,
    lemma_mod_bound};
use vstd::arithmetic::mul::{lemma_mul_inequality, lemma_mul_is_commutative,
    lemma_mul_nonnegative};

verus! {

/// The slice of the `k`-th completed chunk lies within the combined
/// sample sequence: chunk `k` of a sequence of length `len`, at threshold
/// `t`, covers `[k * t, (k + 1) * t)`.
pub proof fn lemma_chunk_slice_bounds(len: int, t: int, k: int)
    requires
        t >= 1,
        len >= 0,
        0 <= k < len / t,
    ensures
        0 <= k * t,
        k * t <= (k + 1) * t,
        (k + 1) * t <= len,
{
    lemma_mul_nonnegative(k, t);
    lemma_mul_inequality(k, k + 1, t);
    lemma_fundamental_div_mod(len, t);
    lemma_mod_bound(len, t);
    lemma_mul_inequality(k + 1, len / t, t);
    lemma_mul_is_commutative(t, len / t);
}

/// Accumulates samples until a fixed threshold is reached.
pub struct ChunkBuffer {
    pending: Vec<i16>,
    limit: usize,
}

impl ChunkBuffer {
    /// Samples accumulated so far, in capture order.
    pub closed spec fn buffered(&self) -> Seq<i16> {
        self.pending@
    }

    /// Number of samples a completed chunk holds.
    pub closed spec fn threshold(&self) -> int {
        self.limit as int
    }

    /// Well-formedness: the threshold is positive and the buffer never
    /// retains a full chunk.
    pub open spec fn wf(&self) -> bool {
        &&& self.threshold() >= 1
        &&& self.buffered().len() < self.threshold()
    }

    /// Create an empty buffer with the given chunk threshold.
    pub fn new(threshold: usize) -> (r: Self)
        requires
            threshold >= 1,
        ensures
            r.wf(),
            r.buffered() == Seq::<i16>::empty(),
            r.threshold() == threshold,
    {
        let r = ChunkBuffer { pending: Vec::new(), limit: threshold };
        proof {
            assert(r.buffered() =~= Seq::<i16>::empty());
        }
        r
    }

    /// Append a batch of samples and drain every completed chunk.
    ///
    /// Each drained chunk holds exactly `threshold` consecutive samples of
    /// the combined sequence (buffered samples first, then the batch), in
    /// capture order; what is left over stays buffered.
    pub fn push_batch(&mut self, samples: &Vec<i16>) -> (chunks: Vec<Vec<i16>>)
        requires
            old(self).wf(),
        ensures
            final(self).wf(),
            final(self).threshold() == old(self).threshold(),
            chunks@.len() == (old(self).buffered() + samples@).len() as int / old(self).threshold(),
            forall|i: int|
                0 <= i < chunks@.len() ==> chunks@[i]@ == (old(self).buffered() + samples@).subrange(
                    i * old(self).threshold(),
                    (i + 1) * old(self).threshold(),
                ),
            final(self).buffered() == (old(self).buffered() + samples@).skip(
                chunks@.len() * old(self).threshold(),
            ),
    {
        let ghost all: Seq<i16> = self.pending@ + samples@;
        let ghost t: int = self.limit as int;

        let mut i: usize = 0;
        while i < samples.len()
            invariant
                i <= samples.len(),
                self.pending@ == old(self).pending@ + samples@.take(i as int),
                self.limit == old(self).limit,
            decreases samples.len() - i,
        {
            self.pending.push(samples[i]);
            proof {
                assert(old(self).pending@ + samples@.take(i + 1) =~= (old(self).pending@
                    + samples@.take(i as int)).push(samples@[i as int]));
            }
            i = i + 1;
        }
        proof {
            assert(self.pending@ =~= all);
            assert(all.skip(0) =~= all);
        }

        let ghost mut drained: int = 0;
        let mut chunks: Vec<Vec<i16>> = Vec::new();
        proof {
            assert(chunks@.len() * t == 0) by (nonlinear_arith)
                requires
                    chunks@.len() == 0,
            ;
        }
        while self.pending.len() >= self.limit
            invariant
                self.limit == old(self).limit,
                self.limit >= 1,
                t == self.limit as int,
                0 <= drained <= all.len(),
                drained == chunks@.len() * t,
                self.pending@ == all.skip(drained),
                forall|k: int|
                    0 <= k < chunks@.len() ==> chunks@[k]@ == all.subrange(k * t, (k + 1) * t),
            decreases self.pending.len(),
        {
            let mut c: Vec<i16> = Vec::new();
            let mut j: usize = 0;
            while j < self.limit
                invariant
                    j <= self.limit,
                    self.limit <= self.pending.len(),
                    c@ == self.pending@.take(j as int),
                decreases self.limit - j,
            {
                c.push(self.pending[j]);
                proof {
                    assert(self.pending@.take(j + 1) =~= self.pending@.take(j as int).push(
                        self.pending@[j as int]));
                }
                j = j + 1;
            }

            let mut rest: Vec<i16> = Vec::new();
            let mut j: usize = self.limit;
            while j < self.pending.len()
                invariant
                    self.limit <= j <= self.pending.len(),
                    rest@ == self.pending@.subrange(self.limit as int, j as int),
                decreases self.pending.len() - j,
            {
                rest.push(self.pending[j]);
                proof {
                    assert(self.pending@.subrange(self.limit as int, j + 1)
                        =~= self.pending@.subrange(self.limit as int, j as int).push(
                        self.pending@[j as int]));
                }
                j = j + 1;
            }

            proof {
                assert(c@ =~= all.subrange(drained, drained + t));
                assert(rest@ =~= all.skip(drained + t));
                assert((chunks@.len() + 1) * t == drained + t) by (nonlinear_arith)
                    requires
                        drained == chunks@.len() * t,
                ;
                drained = drained + t;
            }
            self.pending = rest;
            chunks.push(c);
        }

        proof {
            let k = chunks@.len() as int;
            assert(all.len() - drained == self.pending@.len());
            lemma_fundamental_div_mod_converse(all.len() as int, t, k, all.len() - drained);
        }
        chunks
    }
}

} // verus!
