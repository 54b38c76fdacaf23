//! One received bus message, as the consume loop sees it.

use vstd::prelude::*;

verus! {

/// Wall-clock stamp that the bus attached to a message.
///
/// The stored number counts milliseconds since the Unix epoch. The bus
/// writes `-1` where it has no time to give.
#[derive(Clone, Copy, Debug, PartialEq, Eq)]
pub enum Timestamp {
    /// The bus gave no time.
    NotAvailable,
    /// Time at which the producer created the message.
    CreateTime(i64),
    /// Time at which the broker appended the message to its log.
    LogAppendTime(i64),
}

impl Timestamp {
    /// Milliseconds since the epoch, where the stamp carries a time.
    pub open spec fn millis(self) -> Option<i64> {
        match self {
            Timestamp::NotAvailable => None,
            Timestamp::CreateTime(t) => if t == -1 { None } else { Some(t) },
            Timestamp::LogAppendTime(t) => if t == -1 { None } else { Some(t) },
        }
    }

    /// Milliseconds since the epoch, or `None` where the stamp is absent
    /// or holds the bus's `-1` marker.
    pub fn to_millis(self) -> (r: Option<i64>)
        ensures
            r == self.millis(),
    {
        match self {
            Timestamp::NotAvailable => None,
            Timestamp::CreateTime(t) => if t == -1 { None } else { Some(t) },
            Timestamp::LogAppendTime(t) => if t == -1 { None } else { Some(t) },
        }
    }
}

/// Immutable record of one message taken from the bus.
#[derive(Clone, Debug, PartialEq, Eq)]
pub struct Envelope {
    /// Name of the topic the message arrived on.
    pub topic: String,
    /// Partition of that topic.
    pub partition: i32,
    /// Position of the message within its partition.
    pub offset: i64,
    /// Time that the bus attached.
    pub timestamp: Timestamp,
    /// Message key, if the producer set one.
    pub key: Option<Vec<u8>>,
    /// Raw message body, if there is one.
    pub payload: Option<Vec<u8>>,
}

} // verus!
