//! Account records and the audit history they carry.

use vstd::prelude::*;

verus! {

/// Mathematical value of one alteration record.
pub struct AlterRecordView {
    pub time: i64,
    pub credit: i32,
    pub reason: Seq<char>,
}

/// Mathematical value of one account record.
pub struct AccountView {
    pub credit: i32,
    pub alter_records: Seq<AlterRecordView>,
}

/// One entry of an account's audit history: the delta applied to the balance,
/// when it was applied (seconds since the epoch) and why.
#[derive(Debug, PartialEq, Eq)]
pub struct EcosystemUserCreditAlterRecord {
    pub time: i64,
    pub credit: i32,
    pub reason: String,
}

/// The persisted state of one account: its balance and its audit history,
/// oldest entry first.
#[derive(Debug, PartialEq, Eq)]
pub struct EcosystemUserAccountRecord {
    pub credit: i32,
    pub alter_records: Vec<EcosystemUserCreditAlterRecord>,
}

impl View for EcosystemUserCreditAlterRecord {
    type V = AlterRecordView;

    open spec fn view(&self) -> AlterRecordView {
        AlterRecordView { time: self.time, credit: self.credit, reason: self.reason@ }
    }
}

impl View for EcosystemUserAccountRecord {
    type V = AccountView;

    open spec fn view(&self) -> AccountView {
        AccountView { credit: self.credit, alter_records: history_view(self.alter_records@) }
    }
}

/// The views of a sequence of alteration records, in the same order.
pub open spec fn history_view(records: Seq<EcosystemUserCreditAlterRecord>) -> Seq<
    AlterRecordView,
> {
    Seq::new(records.len(), |i: int| records[i]@)
}

/// Sum of the deltas of a history: the balance that replaying it from zero gives.
pub open spec fn history_total(history: Seq<AlterRecordView>) -> int
    decreases history.len(),
{
    if history.len() == 0 {
        0
    } else {
        history_total(history.drop_last()) + history.last().credit
    }
}

impl AccountView {
    /// The account that a first `set` starts from: no credit and no history.
    pub open spec fn empty() -> AccountView {
        AccountView { credit: 0, alter_records: Seq::empty() }
    }

    /// The part of the balance that no history entry accounts for.
    pub open spec fn unaudited(self) -> int {
        self.credit - history_total(self.alter_records)
    }

    /// The history is a faithful audit log: replaying it from zero gives the balance.
    pub open spec fn is_audited(self) -> bool {
        self.unaudited() == 0
    }

    /// The account after one more alteration has been appended and applied.
    pub open spec fn altered(self, credit: i32, entry: AlterRecordView) -> AccountView {
        AccountView { credit, alter_records: self.alter_records.push(entry) }
    }

    /// `self` extends `earlier`: every entry of `earlier` is still there, unchanged
    /// and in place.
    pub open spec fn extends(self, earlier: AccountView) -> bool {
        earlier.alter_records.is_prefix_of(self.alter_records)
    }
}

/// Appending an entry adds its delta to the total of the history.
pub proof fn lemma_history_total_push(history: Seq<AlterRecordView>, entry: AlterRecordView)
    ensures
        history_total(history.push(entry)) == history_total(history) + entry.credit,
{
    assert(history.push(entry).drop_last() =~= history);
}

impl Clone for EcosystemUserCreditAlterRecord {
    fn clone(&self) -> (res: Self)
        ensures
            res@ == self@,
    {
        EcosystemUserCreditAlterRecord {
            time: self.time,
            credit: self.credit,
            reason: self.reason.clone(),
        }
    }
}

impl Clone for EcosystemUserAccountRecord {
    fn clone(&self) -> (res: Self)
        ensures
            res@ == self@,
    {
        let mut alter_records: Vec<EcosystemUserCreditAlterRecord> = Vec::new();
        let mut i: usize = 0;
        while i < self.alter_records.len()
            invariant
                i <= self.alter_records.len(),
                alter_records.len() == i,
                forall|j: int| 0 <= j < i ==> alter_records[j]@ == self.alter_records[j]@,
            decreases self.alter_records.len() - i,
        {
            alter_records.push(self.alter_records[i].clone());
            i += 1;
        }
        assert(history_view(alter_records@) =~= history_view(self.alter_records@));
        EcosystemUserAccountRecord { credit: self.credit, alter_records }
    }
}

impl EcosystemUserAccountRecord {
    /// The record of an account that does not exist yet: no credit, no history.
    pub fn new() -> (res: Self)
        ensures
            res@ == AccountView::empty(),
    {
        let res = EcosystemUserAccountRecord { credit: 0, alter_records: Vec::new() };
        assert(res@.alter_records =~= Seq::empty());
        res
    }
}

} // verus!
