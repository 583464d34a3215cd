//! The source reader's poll cycle: every message of every message set
//! returned by one poll becomes a record for the configured topic, in
//! stable order, and the group's offsets may be committed only once every
//! one of those records has been forwarded to the handoff channel.

use vstd::prelude::*;
use crate::record::{Message, MessageSet, Record, record_of};

verus! {

/// The records built from a sequence of messages, in order.
pub open spec fn records_of_messages(topic: String, msgs: Seq<Message>) -> Seq<Record> {
    msgs.map_values(|m: Message| record_of(topic, m))
}

/// The records built from one message set, in message order.
pub open spec fn set_records(topic: String, ms: MessageSet) -> Seq<Record> {
    records_of_messages(topic, ms.messages@)
}

/// The records built from one whole poll result: set by set, message by
/// message, in the order the poll delivered them.
pub open spec fn poll_records(topic: String, sets: Seq<MessageSet>) -> Seq<Record> {
    sets.map_values(|ms: MessageSet| set_records(topic, ms)).flatten()
}

proof fn lemma_records_of_messages_take_succ(topic: String, msgs: Seq<Message>, i: int)
    requires
        0 <= i < msgs.len(),
    ensures
        records_of_messages(topic, msgs.take(i + 1)) == records_of_messages(
            topic,
            msgs.take(i),
        ).push(record_of(topic, msgs[i])),
{
    assert(msgs.take(i + 1).map_values(|m: Message| record_of(topic, m)) =~= msgs.take(
        i,
    ).map_values(|m: Message| record_of(topic, m)).push(record_of(topic, msgs[i])));
}

proof fn lemma_poll_records_take_succ(topic: String, sets: Seq<MessageSet>, i: int)
    requires
        0 <= i < sets.len(),
    ensures
        poll_records(topic, sets.take(i + 1)) == poll_records(topic, sets.take(i)) + set_records(
            topic,
            sets[i],
        ),
{
    let f = |ms: MessageSet| set_records(topic, ms);
    assert(sets.take(i + 1).map_values(f) =~~= sets.take(i).map_values(f).push(f(sets[i])));
    sets.take(i).map_values(f).lemma_flatten_push(f(sets[i]));
}

proof fn lemma_poll_records_empty(topic: String, sets: Seq<MessageSet>)
    requires
        sets.len() == 0,
    ensures
        poll_records(topic, sets) == Seq::<Record>::empty(),
{
    assert(sets.map_values(|ms: MessageSet| set_records(topic, ms)) =~= Seq::<
        Seq<Record>,
    >::empty());
    assert(poll_records(topic, sets) =~= Seq::<Record>::empty());
}

/// Builds the records of one message set: each message's key and value
/// are carried over unchanged, under the configured topic.
pub fn records_of_set(topic: &String, ms: MessageSet) -> (rs: Vec<Record>)
    ensures
        rs@ == set_records(*topic, ms),
{
    let ghost all = ms.messages@;
    let ghost t = *topic;
    let mut msgs = ms.messages;
    let mut rs: Vec<Record> = Vec::new();
    let ghost mut done: int = 0;
    proof {
        assert(rs@ =~= records_of_messages(t, all.take(0)));
    }
    while msgs.len() > 0
        invariant
            t == *topic,
            0 <= done <= all.len(),
            msgs@ == all.skip(done),
            rs@ == records_of_messages(t, all.take(done)),
        decreases msgs@.len(),
    {
        let m = msgs.remove(0);
        proof {
            assert(m == all[done]);
            assert(all.skip(done).remove(0) =~= all.skip(done + 1));
        }
        let rec = Record::new(topic.clone(), m.key, m.value);
        rs.push(rec);
        proof {
            lemma_records_of_messages_take_succ(t, all, done);
            assert(rs@ == records_of_messages(t, all.take(done + 1)));
            done = done + 1;
        }
    }
    proof {
        assert(all.take(done) =~= all);
    }
    rs
}

/// One poll cycle of the source reader: the records still to forward and
/// the count already accepted by the handoff channel. The cycle decides
/// when the offset commit for its poll is due.
pub struct PollCycle {
    records: Vec<Record>,
    forwarded: usize,
}

impl PollCycle {
    /// All records of this cycle, in poll order.
    pub closed spec fn records(self) -> Seq<Record> {
        self.records@
    }

    /// How many of the cycle's records have been forwarded so far.
    pub closed spec fn forwarded(self) -> int {
        self.forwarded as int
    }

    /// No more records are marked forwarded than the cycle holds.
    pub open spec fn wf(self) -> bool {
        self.forwarded() <= self.records().len()
    }

    /// Builds the cycle for one poll result: one record per message of
    /// every returned set, in order, each carrying the configured topic
    /// and the message's own key and value; nothing is forwarded yet.
    pub fn new(topic: &String, sets: Vec<MessageSet>) -> (c: PollCycle)
        ensures
            c.wf(),
            c.records() == poll_records(*topic, sets@),
            c.forwarded() == 0,
    {
        let ghost all = sets@;
        let ghost t = *topic;
        let mut sets = sets;
        let mut rs: Vec<Record> = Vec::new();
        let ghost mut done: int = 0;
        proof {
            lemma_poll_records_empty(t, all.take(0));
            assert(rs@ =~= poll_records(t, all.take(0)));
        }
        while sets.len() > 0
            invariant
                t == *topic,
                0 <= done <= all.len(),
                sets@ == all.skip(done),
                rs@ == poll_records(t, all.take(done)),
            decreases sets@.len(),
        {
            let ms = sets.remove(0);
            proof {
                assert(ms == all[done]);
                assert(all.skip(done).remove(0) =~= all.skip(done + 1));
            }
            let mut sub = records_of_set(topic, ms);
            rs.append(&mut sub);
            proof {
                lemma_poll_records_take_succ(t, all, done);
                assert(rs@ == poll_records(t, all.take(done + 1)));
                done = done + 1;
            }
        }
        proof {
            assert(all.take(done) =~= all);
        }
        PollCycle { records: rs, forwarded: 0 }
    }

    /// The next record to forward on the handoff channel, or `None` once
    /// every record of the cycle has been forwarded.
    pub fn next_unforwarded(&self) -> (r: Option<&Record>)
        requires
            self.wf(),
        ensures
            (match r {
                Some(rec) => self.forwarded() < self.records().len() && *rec == self.records()[
                    self.forwarded()
                ],
                None => self.forwarded() == self.records().len(),
            }),
    {
        if self.forwarded < self.records.len() {
            Some(&self.records[self.forwarded])
        } else {
            None
        }
    }

    /// Marks the next record as accepted by the handoff channel. A record
    /// is marked only after its send succeeded: a failed send aborts the
    /// cycle instead, leaving it short of commit.
    pub fn mark_forwarded(&mut self)
        requires
            old(self).wf(),
            old(self).forwarded() < old(self).records().len(),
        ensures
            final(self).wf(),
            final(self).records() == old(self).records(),
            final(self).forwarded() == old(self).forwarded() + 1,
    {
        let n = self.records.len();
        self.forwarded = self.forwarded + 1;
        proof {
            assert(self.forwarded as int <= n as int);
        }
    }

    /// Whether the offset commit for this poll cycle is due: exactly when
    /// every record of the cycle has been forwarded. While any record is
    /// unforwarded — in particular when forwarding failed partway
    /// through — no commit is due.
    pub fn commit_due(&self) -> (r: bool)
        ensures
            r <==> self.forwarded() == self.records().len(),
    {
        self.forwarded == self.records.len()
    }
}

} // verus!
