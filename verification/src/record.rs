//! What the broker hands over and what the store is given.

use vstd::prelude::*;

verus! {

/// One message as the broker session delivers it. It lives for one turn of
/// the ingestion loop. A broker delivers no empty topic; nothing here
/// depends on that.
#[derive(Clone, Debug, PartialEq, Eq)]
pub struct InboundMessage {
    pub topic: String,
    pub payload: Vec<u8>,
}

/// An `InboundMessage` as plain values.
pub struct InboundMessageView {
    pub topic: Seq<char>,
    pub payload: Seq<u8>,
}

impl View for InboundMessage {
    type V = InboundMessageView;

    open spec fn view(&self) -> InboundMessageView {
        InboundMessageView { topic: self.topic@, payload: self.payload@ }
    }
}

/// An accepted message, ready to be appended to the store: the topic it
/// came on, its canonical text and the second at which it was accepted.
#[derive(Clone, Debug, PartialEq, Eq)]
pub struct CanonicalRecord {
    pub topic: String,
    pub message: String,
    pub timestamp: i64,
}

/// A `CanonicalRecord` as plain values.
pub struct CanonicalRecordView {
    pub topic: Seq<char>,
    pub message: Seq<char>,
    pub timestamp: i64,
}

impl View for CanonicalRecord {
    type V = CanonicalRecordView;

    open spec fn view(&self) -> CanonicalRecordView {
        CanonicalRecordView {
            topic: self.topic@,
            message: self.message@,
            timestamp: self.timestamp,
        }
    }
}

/// The timestamp for a clock reading in whole seconds since the epoch: the
/// reading itself while it fits the signed 64 bits of a timestamp, and the
/// reading less 2^64 beyond that.
pub open spec fn timestamp_of(clock_secs: u64) -> i64 {
    if clock_secs <= i64::MAX {
        clock_secs as i64
    } else {
        (clock_secs - 0x1_0000_0000_0000_0000) as i64
    }
}

/// Computes `timestamp_of`.
pub fn epoch_timestamp(clock_secs: u64) -> (timestamp: i64)
    ensures
        timestamp == timestamp_of(clock_secs),
{
    if clock_secs <= 0x7fff_ffff_ffff_ffff {
        clock_secs as i64
    } else {
        let above: u64 = clock_secs - 0x8000_0000_0000_0000;
        (above as i64) + i64::MIN
    }
}

} // verus!
