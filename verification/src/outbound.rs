//! Messages for the broker.
use vstd::prelude::*;

verus! {

/// The topic that new transactions are published on.
pub open spec fn raw_topic() -> Seq<char> {
    "transactions.raw"@
}

/// The topic that suspicious transactions are published on.
pub open spec fn flagged_topic() -> Seq<char> {
    "transactions.flagged"@
}

/// A message to publish. The broker keeps messages with the same key in
/// order.
#[derive(Debug)]
pub struct OutgoingRecord {
    pub topic: String,
    pub key: String,
    pub payload: String,
}

/// A message as mathematics.
pub struct RecordView {
    pub topic: Seq<char>,
    pub key: Seq<char>,
    pub payload: Seq<char>,
}

impl View for OutgoingRecord {
    type V = RecordView;

    open spec fn view(&self) -> RecordView {
        RecordView { topic: self.topic@, key: self.key@, payload: self.payload@ }
    }
}

} // verus!
