//! The data carried through the relay: messages as polled from the source
//! cluster, and records as written to the destination cluster.

use vstd::prelude::*;

verus! {

/// One message as delivered by the source cluster: a key/value pair of
/// bytes. Empty byte sequences are legal for both fields.
pub struct Message {
    pub key: Vec<u8>,
    pub value: Vec<u8>,
}

/// One message set as returned by a poll call: zero or more messages in
/// stable relative order.
pub struct MessageSet {
    pub messages: Vec<Message>,
}

/// One record in transit to the destination cluster: the topic it is
/// written to, and the key/value bytes copied verbatim from the source
/// message.
pub struct Record {
    pub topic: String,
    pub key: Vec<u8>,
    pub value: Vec<u8>,
}

/// The record that the relay builds from one source message: the configured
/// topic, and the message's own key and value.
pub open spec fn record_of(topic: String, m: Message) -> Record {
    Record { topic: topic, key: m.key, value: m.value }
}

impl Record {
    /// Builds a record for `topic` carrying `key` and `value` unchanged.
    pub fn new(topic: String, key: Vec<u8>, value: Vec<u8>) -> (r: Record)
        ensures
            r == (Record { topic: topic, key: key, value: value }),
    {
        Record { topic, key, value }
    }
}

} // verus!
