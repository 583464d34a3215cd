//! Checking the per-record confirmations that the destination cluster
//! returns for one batched write. Any confirmation that reports an error
//! fails the whole batch: partial success is not distinguished from total
//! failure, and nothing is retried.

use vstd::prelude::*;

verus! {

/// The destination broker's confirmation for the messages appended to one
/// partition: the offset assigned to the first appended message, or the
/// broker's error code.
pub struct PartitionConfirm {
    pub partition: i32,
    pub offset: Result<i64, i16>,
}

/// The destination broker's confirmation for one topic of a batched
/// write: one entry per partition that received messages.
pub struct ProduceConfirm {
    pub topic: String,
    pub partition_confirms: Vec<PartitionConfirm>,
}

/// The first error code among one topic's partition confirmations, in
/// order, if any reports an error.
pub open spec fn first_error_in_set(pcs: Seq<PartitionConfirm>) -> Option<i16>
    decreases pcs.len(),
{
    if pcs.len() == 0 {
        None
    } else {
        match pcs[0].offset {
            Err(c) => Some(c),
            Ok(_) => first_error_in_set(pcs.drop_first()),
        }
    }
}

/// The first error code among all confirmations of a batched write, in
/// order, if any reports an error.
pub open spec fn first_error(cs: Seq<ProduceConfirm>) -> Option<i16>
    decreases cs.len(),
{
    if cs.len() == 0 {
        None
    } else {
        match first_error_in_set(cs[0].partition_confirms@) {
            Some(c) => Some(c),
            None => first_error(cs.drop_first()),
        }
    }
}

/// Whether some confirmation of a batched write reports an error.
pub open spec fn has_error(cs: Seq<ProduceConfirm>) -> bool {
    exists|i: int, j: int|
        0 <= i < cs.len() && 0 <= j < cs[i].partition_confirms@.len()
            && cs[i].partition_confirms@[j].offset is Err
}

proof fn lemma_first_error_in_set_iff(pcs: Seq<PartitionConfirm>)
    ensures
        first_error_in_set(pcs) is Some <==> (exists|j: int|
            0 <= j < pcs.len() && pcs[j].offset is Err),
    decreases pcs.len(),
{
    if pcs.len() == 0 {
    } else if pcs[0].offset is Err {
        assert(0 <= 0 < pcs.len() && pcs[0].offset is Err);
    } else {
        lemma_first_error_in_set_iff(pcs.drop_first());
        if exists|j: int| 0 <= j < pcs.len() && pcs[j].offset is Err {
            let j = choose|j: int| 0 <= j < pcs.len() && pcs[j].offset is Err;
            assert(pcs.drop_first()[j - 1] == pcs[j]);
        }
        if first_error_in_set(pcs) is Some {
            let j = choose|j: int|
                0 <= j < pcs.drop_first().len() && pcs.drop_first()[j].offset is Err;
            assert(pcs[j + 1] == pcs.drop_first()[j]);
        }
    }
}

/// Every confirmation of a batched write reports success exactly when no
/// error code is found in order.
pub proof fn lemma_first_error_iff(cs: Seq<ProduceConfirm>)
    ensures
        first_error(cs) is Some <==> has_error(cs),
    decreases cs.len(),
{
    if cs.len() == 0 {
    } else {
        lemma_first_error_in_set_iff(cs[0].partition_confirms@);
        lemma_first_error_iff(cs.drop_first());
        if first_error_in_set(cs[0].partition_confirms@) is Some {
            let j = choose|j: int|
                0 <= j < cs[0].partition_confirms@.len()
                    && cs[0].partition_confirms@[j].offset is Err;
            assert(0 <= 0 < cs.len() && 0 <= j < cs[0].partition_confirms@.len()
                && cs[0].partition_confirms@[j].offset is Err);
        } else if has_error(cs.drop_first()) {
            let (i, j): (int, int) = choose|i: int, j: int|
                0 <= i < cs.drop_first().len()
                    && 0 <= j < cs.drop_first()[i].partition_confirms@.len()
                    && cs.drop_first()[i].partition_confirms@[j].offset is Err;
            assert(cs[i + 1] == cs.drop_first()[i]);
        } else if has_error(cs) {
            let (i, j): (int, int) = choose|i: int, j: int|
                0 <= i < cs.len() && 0 <= j < cs[i].partition_confirms@.len()
                    && cs[i].partition_confirms@[j].offset is Err;
            if i > 0 {
                assert(cs.drop_first()[i - 1] == cs[i]);
            }
        }
    }
}

fn check_confirm_set(pcs: &Vec<PartitionConfirm>) -> (r: Option<i16>)
    ensures
        r == first_error_in_set(pcs@),
{
    let mut r: Option<i16> = None;
    let mut i: usize = pcs.len();
    while i > 0
        invariant
            i <= pcs.len(),
            r == first_error_in_set(pcs@.skip(i as int)),
        decreases i,
    {
        i = i - 1;
        match pcs[i].offset {
            Err(c) => {
                r = Some(c);
            },
            Ok(_) => {
            },
        }
        proof {
            assert(pcs@.skip(i as int).drop_first() =~= pcs@.skip(i as int + 1));
        }
    }
    proof {
        assert(pcs@.skip(0) =~= pcs@);
    }
    r
}

/// Checks the confirmations of one batched write to the destination
/// cluster. Returns `Ok` when every confirmation reports success; returns
/// the first error code, in confirmation order, when any reports an
/// error — the whole batch fails, success of the other records
/// notwithstanding.
pub fn check_confirms(confirms: &Vec<ProduceConfirm>) -> (r: Result<(), i16>)
    ensures
        r == (match first_error(confirms@) {
            Some(c) => Err::<(), i16>(c),
            None => Ok::<(), i16>(()),
        }),
        r is Err <==> has_error(confirms@),
{
    let mut e: Option<i16> = None;
    let mut i: usize = confirms.len();
    while i > 0
        invariant
            i <= confirms.len(),
            e == first_error(confirms@.skip(i as int)),
        decreases i,
    {
        i = i - 1;
        match check_confirm_set(&confirms[i].partition_confirms) {
            Some(c) => {
                e = Some(c);
            },
            None => {
            },
        }
        proof {
            assert(confirms@.skip(i as int).drop_first() =~= confirms@.skip(i as int + 1));
        }
    }
    proof {
        assert(confirms@.skip(0) =~= confirms@);
        lemma_first_error_iff(confirms@);
    }
    match e {
        Some(c) => Err(c),
        None => Ok(()),
    }
}

} // verus!
