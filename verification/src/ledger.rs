//! The ledger: the append-only collection of accepted verifications.

use crate::record::{RecordView, TranscriptRecord};
use vstd::prelude::*;

verus! {

/// The views of a sequence of records, in the same order.
pub open spec fn views_of(records: Seq<TranscriptRecord>) -> Seq<RecordView> {
    Seq::new(records.len(), |i: int| records[i]@)
}

/// The accepted verifications in the order in which they were appended.
/// Records are only ever added at the end; none is changed or removed.
pub struct Ledger {
    records: Vec<TranscriptRecord>,
}

impl View for Ledger {
    type V = Seq<RecordView>;

    closed spec fn view(&self) -> Seq<RecordView> {
        views_of(self.records@)
    }
}

impl Ledger {
    /// An empty ledger.
    pub fn new() -> (ledger: Ledger)
        ensures
            ledger@ == Seq::<RecordView>::empty(),
    {
        let ledger = Ledger { records: Vec::new() };
        assert(ledger@ =~= Seq::<RecordView>::empty());
        ledger
    }

    /// Adds `record` at the end, whatever it holds.
    pub fn append(&mut self, record: TranscriptRecord)
        ensures
            final(self)@ == old(self)@.push(record@),
    {
        self.records.push(record);
        assert(self@ =~= old(self)@.push(record@));
    }

    /// All the records, oldest first.
    pub fn list(&self) -> (records: &Vec<TranscriptRecord>)
        ensures
            views_of(records@) == self@,
    {
        &self.records
    }

    /// How many records the ledger holds.
    pub fn len(&self) -> (count: usize)
        ensures
            count == self@.len(),
    {
        self.records.len()
    }
}

} // verus!
