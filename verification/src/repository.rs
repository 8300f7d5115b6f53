//! An account repository held in memory: the store that the ledger's laws are
//! stated against, with versioned records and all-or-nothing commits.

use crate::store::{
    after_commit, all_current, all_have_room, apply_writes, commit_verdict, keys_view, lookup,
    lookup_all, snapshot_view, snapshots_view, writes_view, CommitView, Event, Snapshot,
    StoreState, VersionedAccount, Write,
};
use vstd::hash_map::StringHashMap;
use vstd::prelude::*;

verus! {

/// The text of the failure that a commit reports where a version counter is
/// used up.
pub open spec fn exhausted_text() -> Seq<char> {
    "version counter exhausted"@
}

/// `event` is the answer that the verdict `verdict` calls for.
pub open spec fn answers(event: Event, verdict: CommitView) -> bool {
    match verdict {
        CommitView::Committed => event is Committed,
        CommitView::Conflicted => event is Conflicted,
        CommitView::Exhausted => event matches Event::Failed(text) && text@ == exhausted_text(),
    }
}

/// All accounts of a ledger, each under its key and with its version.
pub struct AccountRepository {
    accounts: StringHashMap<Snapshot>,
}

impl View for AccountRepository {
    type V = StoreState;

    closed spec fn view(&self) -> StoreState {
        Map::new(
            |key: Seq<char>| self.accounts@.contains_key(key),
            |key: Seq<char>| self.accounts@[key]@,
        )
    }
}

impl Clone for Snapshot {
    fn clone(&self) -> (res: Self)
        ensures
            res@ == self@,
    {
        Snapshot { version: self.version, record: self.record.clone() }
    }
}

impl AccountRepository {
    /// A repository that holds no account.
    pub fn new() -> (res: Self)
        ensures
            res@ == Map::<Seq<char>, VersionedAccount>::empty(),
    {
        let res = AccountRepository { accounts: StringHashMap::new() };
        res
    }

    /// Reads the record under `key` together with its version, or `None` where
    /// the key holds nothing. Never changes the repository.
    pub fn load(&self, key: &str) -> (res: Option<Snapshot>)
        ensures
            snapshot_view(res) == lookup(self@, key@),
    {
        match self.accounts.get(key) {
            Some(stored) => Some(stored.clone()),
            None => None,
        }
    }

    /// Reads the records under `keys`, in the same order.
    pub fn load_all(&self, keys: &Vec<String>) -> (res: Vec<Option<Snapshot>>)
        ensures
            snapshots_view(res@) == lookup_all(self@, keys_view(keys@)),
    {
        let mut loaded: Vec<Option<Snapshot>> = Vec::new();
        let mut i: usize = 0;
        while i < keys.len()
            invariant
                i <= keys.len(),
                loaded.len() == i,
                forall|j: int|
                    0 <= j < i ==> snapshot_view(#[trigger] loaded[j]) == lookup(
                        self@,
                        keys[j]@,
                    ),
            decreases keys.len() - i,
        {
            loaded.push(self.load(keys[i].as_str()));
            i += 1;
        }
        loaded
    }

    /// Whether every write has room in its version counter.
    fn have_room(writes: &Vec<Write>) -> (res: bool)
        ensures
            res == all_have_room(writes_view(writes@)),
    {
        let mut i: usize = 0;
        while i < writes.len()
            invariant
                i <= writes.len(),
                forall|j: int| 0 <= j < i ==> (#[trigger] writes_view(writes@)[j]).has_room(),
            decreases writes.len() - i,
        {
            if let Some(version) = writes[i].expected {
                if version == u64::MAX {
                    assert(!writes_view(writes@)[i as int].has_room());
                    return false;
                }
            }
            i += 1;
        }
        true
    }

    /// Whether every write still finds the version it expects.
    fn are_current(&self, writes: &Vec<Write>) -> (res: bool)
        ensures
            res == all_current(self@, writes_view(writes@)),
    {
        let mut i: usize = 0;
        while i < writes.len()
            invariant
                i <= writes.len(),
                forall|j: int|
                    0 <= j < i ==> (#[trigger] writes_view(writes@)[j]).is_current(self@),
            decreases writes.len() - i,
        {
            let found: Option<u64> = match self.accounts.get(writes[i].key.as_str()) {
                Some(stored) => Some(stored.version),
                None => None,
            };
            let same = match (found, writes[i].expected) {
                (Some(a), Some(b)) => a == b,
                (None, None) => true,
                _ => false,
            };
            if !same {
                assert(!writes_view(writes@)[i as int].is_current(self@));
                return false;
            }
            i += 1;
        }
        true
    }

    /// Applies `writes` as one unit. Where every write still finds the version it
    /// expects, all are applied, first to last, each raising its record's
    /// version by one; otherwise the repository stays exactly as it was and the
    /// answer says why.
    pub fn commit(&mut self, writes: &Vec<Write>) -> (res: Event)
        ensures
            final(self)@ == after_commit(old(self)@, writes_view(writes@)),
            answers(res, commit_verdict(old(self)@, writes_view(writes@))),
    {
        if !Self::have_room(writes) {
            return Event::Failed("version counter exhausted".to_owned());
        }
        if !self.are_current(writes) {
            return Event::Conflicted;
        }
        let ghost before = self@;
        let ghost all = writes_view(writes@);
        let mut i: usize = 0;
        while i < writes.len()
            invariant
                i <= writes.len(),
                all == writes_view(writes@),
                all_have_room(all),
                self@ == apply_writes(before, all.take(i as int)),
            decreases writes.len() - i,
        {
            let write = &writes[i];
            let version: u64 = match write.expected {
                Some(v) => {
                    assert(all[i as int].has_room());
                    v + 1
                },
                None => 0,
            };
            self.accounts.insert(
                write.key.clone(),
                Snapshot { version, record: write.record.clone() },
            );
            proof {
                assert(all.take(i + 1).drop_last() =~= all.take(i as int));
            }
            i += 1;
        }
        assert(all.take(i as int) =~= all);
        Event::Committed
    }
}

} // verus!
