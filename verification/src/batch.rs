//! The batch aggregator of the destination writer: it accumulates records
//! up to a configured threshold and hands them out as one full batch to be
//! flushed in a single write to the destination cluster. There is no
//! time-based flush: records below the threshold are held until enough
//! arrive.

use vstd::prelude::*;
use vstd::arithmetic::div_mod::lemma_fundamental_div_mod_converse;
use crate::record::Record;

verus! {

/// The mathematical view of a sequence of flushed batches.
pub open spec fn batches_view(bs: Seq<Vec<Record>>) -> Seq<Seq<Record>> {
    bs.map_values(|b: Vec<Record>| b@)
}

/// All records of a sequence of flushed batches, in flush order.
pub open spec fn flushed_records(bs: Seq<Vec<Record>>) -> Seq<Record> {
    batches_view(bs).flatten()
}

proof fn lemma_flatten_uniform_len(vs: Seq<Seq<Record>>, m: int)
    requires
        m >= 0,
        forall|k: int| 0 <= k < vs.len() ==> (#[trigger] vs[k]).len() == m,
    ensures
        vs.flatten().len() == vs.len() * m,
    decreases vs.len(),
{
    if vs.len() == 0 {
    } else {
        lemma_flatten_uniform_len(vs.drop_first(), m);
        assert((vs.len() - 1) * m + m == vs.len() * m) by (nonlinear_arith);
    }
}

proof fn lemma_flatten_uniform_chunks(vs: Seq<Seq<Record>>, m: int)
    requires
        m >= 1,
        forall|k: int| 0 <= k < vs.len() ==> (#[trigger] vs[k]).len() == m,
    ensures
        forall|k: int|
            0 <= k < vs.len() ==> (#[trigger] vs[k]) == vs.flatten().subrange(k * m, (k + 1) * m),
    decreases vs.len(),
{
    if vs.len() == 0 {
    } else {
        let rest = vs.drop_first();
        let flat = vs.flatten();
        lemma_flatten_uniform_chunks(rest, m);
        lemma_flatten_uniform_len(rest, m);
        lemma_flatten_uniform_len(vs, m);
        assert(flat == vs[0] + rest.flatten());
        assert forall|k: int| 0 <= k < vs.len() implies (#[trigger] vs[k]) == flat.subrange(
            k * m,
            (k + 1) * m,
        ) by {
            if k == 0 {
                assert(vs[0] =~= flat.subrange(0, m));
            } else {
                assert(1 * m <= k * m && k * m + m == (k + 1) * m && (k - 1) * m + m == k * m
                    && k * m <= (vs.len() - 1) * m && (k + 1) * m <= vs.len() * m)
                    by (nonlinear_arith)
                    requires 1 <= k && 1 <= m && k < vs.len();
                assert(rest[k - 1] == rest.flatten().subrange((k - 1) * m, k * m));
                assert(flat.subrange(k * m, (k + 1) * m) =~= rest.flatten().subrange(
                    (k - 1) * m,
                    k * m,
                ));
            }
        }
    }
}

/// Accumulates records for the destination writer and decides when to
/// flush: as soon as the pending records reach `max_batch_size`, the full
/// batch is handed out and the aggregator is empty again.
pub struct BatchAggregator {
    pending: Vec<Record>,
    max_batch_size: usize,
}

impl BatchAggregator {
    /// The records accepted since the last flush, in arrival order.
    pub closed spec fn pending(self) -> Seq<Record> {
        self.pending@
    }

    /// The configured flush threshold.
    pub closed spec fn max_batch_size(self) -> int {
        self.max_batch_size as int
    }

    /// Between steps the threshold is at least one and the pending
    /// records stay strictly below it: a full batch is flushed by the very
    /// step that completes it.
    pub open spec fn wf(self) -> bool {
        1 <= self.max_batch_size() && self.pending().len() < self.max_batch_size()
    }

    /// Creates an empty aggregator with the given flush threshold.
    pub fn new(max_batch_size: usize) -> (a: BatchAggregator)
        requires
            1 <= max_batch_size,
        ensures
            a.wf(),
            a.pending() == Seq::<Record>::empty(),
            a.max_batch_size() == max_batch_size,
    {
        let a = BatchAggregator { pending: Vec::new(), max_batch_size };
        proof {
            assert(a.pending() =~= Seq::<Record>::empty());
        }
        a
    }

    /// Accepts one record from the handoff channel. When the record
    /// completes a full batch the whole batch is returned for flushing,
    /// exactly `max_batch_size` records in arrival order, and the
    /// aggregator is empty afterwards; otherwise the record is appended
    /// and nothing is flushed.
    pub fn accept(&mut self, r: Record) -> (flush: Option<Vec<Record>>)
        requires
            old(self).wf(),
        ensures
            final(self).wf(),
            final(self).max_batch_size() == old(self).max_batch_size(),
            (match flush {
                Some(b) => {
                    &&& old(self).pending().len() + 1 == old(self).max_batch_size()
                    &&& b@ == old(self).pending().push(r)
                    &&& b@.len() == old(self).max_batch_size()
                    &&& final(self).pending() == Seq::<Record>::empty()
                },
                None => {
                    &&& old(self).pending().len() + 1 < old(self).max_batch_size()
                    &&& final(self).pending() == old(self).pending().push(r)
                },
            }),
    {
        self.pending.push(r);
        if self.pending.len() >= self.max_batch_size {
            let b = self.pending.split_off(0);
            proof {
                assert(self.pending() =~= Seq::<Record>::empty());
                assert(b@ =~= old(self).pending().push(r));
            }
            Some(b)
        } else {
            None
        }
    }

    /// Runs the batching policy over a whole sequence of incoming
    /// records, starting empty: the records flushed, taken over all
    /// returned batches in order, are exactly the longest prefix of the
    /// input whose length is a multiple of the threshold — no
    /// reordering, no duplication, no loss within a flushed batch — and
    /// every returned batch is full. The remainder stays pending,
    /// unflushed until further records arrive.
    pub fn feed_all(&mut self, records: Vec<Record>) -> (flushes: Vec<Vec<Record>>)
        requires
            old(self).wf(),
            old(self).pending().len() == 0,
        ensures
            final(self).wf(),
            final(self).max_batch_size() == old(self).max_batch_size(),
            flushed_records(flushes@) == records@.take(
                records@.len() - (records@.len() as int % old(self).max_batch_size()),
            ),
            forall|k: int|
                0 <= k < flushes@.len() ==> (#[trigger] flushes@[k])@.len() == old(
                    self,
                ).max_batch_size(),
            forall|k: int|
                0 <= k < flushes@.len() ==> (#[trigger] flushes@[k])@ == records@.subrange(
                    k * old(self).max_batch_size(),
                    (k + 1) * old(self).max_batch_size(),
                ),
            flushes@.len() == records@.len() as int / old(self).max_batch_size(),
            final(self).pending() == records@.skip(
                records@.len() - (records@.len() as int % old(self).max_batch_size()),
            ),
    {
        let ghost all = records@;
        let ghost m = old(self).max_batch_size();
        let ghost mut done: int = 0;
        let mut records = records;
        let mut flushes: Vec<Vec<Record>> = Vec::new();
        proof {
            assert(batches_view(flushes@) =~= Seq::<Seq<Record>>::empty());
            assert(flushed_records(flushes@) + self.pending() =~= all.take(done));
        }
        while records.len() > 0
            invariant
                self.wf(),
                self.max_batch_size() == m,
                0 <= done <= all.len(),
                records@ == all.skip(done),
                flushed_records(flushes@) + self.pending() == all.take(done),
                forall|k: int|
                    0 <= k < flushes@.len() ==> (#[trigger] flushes@[k])@.len() == m,
                done == flushes@.len() * m + self.pending().len(),
            decreases records@.len(),
        {
            let r = records.remove(0);
            proof {
                assert(r == all[done]);
                assert(all.skip(done).remove(0) =~= all.skip(done + 1));
                assert(all.take(done).push(all[done]) =~= all.take(done + 1));
            }
            let ghost pend = self.pending();
            let ghost flat = flushed_records(flushes@);
            match self.accept(r) {
                Some(b) => {
                    let ghost old_flushes = flushes@;
                    let ghost nf = flushes@.len() as int;
                    flushes.push(b);
                    proof {
                        assert(batches_view(flushes@) =~= batches_view(old_flushes).push(b@));
                        batches_view(old_flushes).lemma_flatten_push(b@);
                        assert(flushed_records(flushes@) =~= flat + pend.push(r));
                        assert(flat + pend.push(r) =~= (flat + pend).push(r));
                        assert(flushed_records(flushes@) + self.pending() =~= all.take(done + 1));
                        assert((nf + 1) * m == nf * m + m) by (nonlinear_arith);
                    }
                },
                None => {
                    proof {
                        assert(flat + pend.push(r) =~= (flat + pend).push(r));
                        assert(flushed_records(flushes@) + self.pending() =~= all.take(done + 1));
                    }
                },
            }
            proof {
                done = done + 1;
            }
        }
        proof {
            assert(done == all.len());
            assert(all.take(done) =~= all);
            let flat = flushed_records(flushes@);
            let p = self.pending().len() as int;
            lemma_fundamental_div_mod_converse(
                all.len() as int,
                m,
                flushes@.len() as int,
                p,
            );
            assert(flat.len() == all.len() - p);
            assert(flat =~= all.take(all.len() - p));
            assert(self.pending() =~= all.skip(all.len() - p));
            lemma_flatten_uniform_chunks(batches_view(flushes@), m);
            assert forall|k: int| 0 <= k < flushes@.len() implies (#[trigger] flushes@[k])@
                == all.subrange(k * m, (k + 1) * m) by {
                assert(batches_view(flushes@)[k] == flushes@[k]@);
                assert(k * m >= 0 && k * m + m == (k + 1) * m && (k + 1) * m <= flat.len())
                    by (nonlinear_arith)
                    requires
                        0 <= k < flushes@.len(),
                        1 <= m,
                        flat.len() == flushes@.len() * m,
                ;
                assert(flat.subrange(k * m, (k + 1) * m) =~= all.subrange(k * m, (k + 1) * m));
            }
        }
        flushes
    }
}

} // verus!
