//! The bounded history of polls: the records of the most recent polls,
//! oldest first.

use crate::model::{records_view, Record, RecordView};
use vstd::prelude::*;

verus! {

/// The number of records that the history retains.
pub const CAP: usize = 720;

/// The records of the most recent polls, oldest first, never more than
/// [`CAP`] of them.
pub struct HistoryBuffer {
    records: Vec<Record>,
}

impl View for HistoryBuffer {
    type V = Seq<RecordView>;

    closed spec fn view(&self) -> Seq<RecordView> {
        records_view(self.records@)
    }
}

/// The last `count` items of a sequence, in order; all of them where the
/// sequence has no more than `count`.
pub open spec fn newest(records: Seq<RecordView>, count: nat) -> Seq<RecordView> {
    if records.len() > count {
        records.subrange(records.len() - count, records.len() as int)
    } else {
        records
    }
}

/// The history after one append: the record added at the tail, then the
/// oldest records dropped from the head until no more than [`CAP`] are left.
pub open spec fn appended(history: Seq<RecordView>, record: RecordView) -> Seq<RecordView> {
    newest(history.push(record), CAP as nat)
}

/// The history after a sequence of appends, made in order.
pub open spec fn appended_all(history: Seq<RecordView>, records: Seq<RecordView>) -> Seq<
    RecordView,
>
    decreases records.len(),
{
    if records.len() == 0 {
        history
    } else {
        appended(appended_all(history, records.drop_last()), records.last())
    }
}

/// After any sequence of appends to an empty history, the history holds the
/// last `min(N, CAP)` of the `N` records appended, in the order in which they
/// were appended.
pub proof fn lemma_history_holds_newest(records: Seq<RecordView>)
    ensures
        appended_all(Seq::empty(), records) == newest(records, CAP as nat),
        appended_all(Seq::empty(), records).len() == if records.len() <= CAP {
            records.len()
        } else {
            CAP as nat
        },
    decreases records.len(),
{
    if records.len() > 0 {
        let front = records.drop_last();
        lemma_history_holds_newest(front);
        assert(appended(newest(front, CAP as nat), records.last()) =~= newest(
            records,
            CAP as nat,
        ));
    } else {
        assert(appended_all(Seq::empty(), records) =~= newest(records, CAP as nat));
    }
}

/// An append to a history of no more than [`CAP`] records leaves no more
/// than [`CAP`], and leaves the record appended at the tail.
pub proof fn lemma_appended_bounded(history: Seq<RecordView>, record: RecordView)
    ensures
        appended(history, record).len() <= CAP,
        appended(history, record).len() == if history.len() < CAP {
            history.len() + 1
        } else {
            CAP as nat
        },
        appended(history, record).last() == record,
{
}

impl HistoryBuffer {
    #[verifier::type_invariant]
    spec fn bounded(self) -> bool {
        self.records@.len() <= CAP
    }

    /// The empty history.
    pub fn new() -> (history: HistoryBuffer)
        ensures
            history@ == Seq::<RecordView>::empty(),
    {
        let history = HistoryBuffer { records: Vec::new() };
        assert(history@ =~= Seq::<RecordView>::empty());
        history
    }

    /// The number of records that the history holds.
    pub fn len(&self) -> (count: usize)
        ensures
            count == self@.len(),
            count <= CAP,
    {
        proof {
            use_type_invariant(self);
        }
        self.records.len()
    }

    /// Adds a record at the tail, then drops the oldest records from the head
    /// until no more than [`CAP`] are left. The records that stay keep their
    /// order.
    pub fn append(&mut self, record: Record)
        ensures
            final(self)@ == appended(old(self)@, record@),
    {
        proof {
            use_type_invariant(&*self);
        }
        let ghost grown = old(self)@.push(record@);
        let mut records: Vec<Record> = Vec::new();
        core::mem::swap(&mut self.records, &mut records);
        records.push(record);
        assert(records_view(records@) =~= grown);
        while records.len() > CAP
            invariant
                records.len() <= grown.len(),
                grown.len() <= CAP + 1,
                grown.len() > CAP ==> records.len() >= CAP,
                grown.len() <= CAP ==> records.len() == grown.len(),
                records_view(records@) == grown.subrange(
                    grown.len() - records.len(),
                    grown.len() as int,
                ),
            decreases records.len(),
        {
            let ghost before = records_view(records@);
            records.remove(0);
            assert(records_view(records@) =~= before.subrange(1, before.len() as int));
            assert(records_view(records@) =~= grown.subrange(
                grown.len() - records.len(),
                grown.len() as int,
            ));
        }
        assert(records_view(records@) =~= appended(old(self)@, record@));
        core::mem::swap(&mut self.records, &mut records);
    }

    /// A copy of the whole history, oldest first. The copy is the caller's
    /// own: later appends do not reach it.
    pub fn snapshot_all(&self) -> (copy: Vec<Record>)
        ensures
            records_view(copy@) == self@,
    {
        let mut copy: Vec<Record> = Vec::new();
        let mut i: usize = 0;
        while i < self.records.len()
            invariant
                i <= self.records.len(),
                copy.len() == i,
                forall|j: int| 0 <= j < i ==> copy@[j]@ == self.records@[j]@,
            decreases self.records.len() - i,
        {
            copy.push(self.records[i].clone());
            i = i + 1;
        }
        assert(records_view(copy@) =~= self@);
        copy
    }
}

/// Answers a query for the history: every record that the history holds,
/// oldest first.
pub fn get_history(history: &HistoryBuffer) -> (records: Vec<Record>)
    ensures
        records_view(records@) == history@,
        records@.len() <= CAP,
{
    let count = history.len();
    let records = history.snapshot_all();
    assert(records_view(records@).len() == count);
    records
}

} // verus!
