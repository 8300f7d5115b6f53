//! The key-value store as the ledger sees it: versioned records, conditional
//! writes, and the requests and answers that pass between the ledger and
//! whatever holds the store.
//!
//! Every stored record carries a version that each write raises by one. A write
//! names the version that it was computed from and takes effect only while the
//! store still holds that version, so a writer that worked from stale data is
//! turned away instead of erasing what another writer did.

use crate::message::{Message, MessageView};
use crate::model::ecosystem::{AccountView, EcosystemUserAccountRecord};
use vstd::prelude::*;

verus! {

/// Mathematical value of a stored record: the account and its version.
pub struct VersionedAccount {
    pub version: u64,
    pub account: AccountView,
}

/// Mathematical value of the whole store: the versioned record under each key.
pub type StoreState = Map<Seq<char>, VersionedAccount>;

/// Mathematical value of a conditional write.
pub struct WriteView {
    pub key: Seq<char>,
    pub expected: Option<u64>,
    pub account: AccountView,
}

/// A record as it was loaded, with the version it had then.
#[derive(Debug, PartialEq, Eq)]
pub struct Snapshot {
    pub version: u64,
    pub record: EcosystemUserAccountRecord,
}

/// A conditional write: store `record` under `key`, provided the key still holds
/// the version `expected`, or still holds nothing where `expected` is `None`.
#[derive(Debug, PartialEq, Eq)]
pub struct Write {
    pub key: String,
    pub expected: Option<u64>,
    pub record: EcosystemUserAccountRecord,
}

/// What the ledger asks for next.
#[derive(Debug, PartialEq, Eq)]
pub enum Action {
    /// Load the records under these keys, in this order.
    Load(Vec<String>),
    /// Apply these writes as one unit: all of them, or none where any of them
    /// finds another version than it expects.
    Commit(Vec<Write>),
    /// Send this reply; the request is done.
    Reply(Message),
}

/// What the store answered.
#[derive(Debug, PartialEq, Eq)]
pub enum Event {
    /// The records under the keys that were asked for, in the same order; `None`
    /// for a key that holds nothing.
    Loaded(Vec<Option<Snapshot>>),
    /// All writes were applied.
    Committed,
    /// Some write found another version than it expected; nothing was written.
    Conflicted,
    /// The store failed; the text is its own description of the failure.
    Failed(String),
}

impl View for Snapshot {
    type V = VersionedAccount;

    open spec fn view(&self) -> VersionedAccount {
        VersionedAccount { version: self.version, account: self.record@ }
    }
}

impl View for Write {
    type V = WriteView;

    open spec fn view(&self) -> WriteView {
        WriteView { key: self.key@, expected: self.expected, account: self.record@ }
    }
}

/// The views of a sequence of keys.
pub open spec fn keys_view(keys: Seq<String>) -> Seq<Seq<char>> {
    Seq::new(keys.len(), |i: int| keys[i]@)
}

/// The views of a sequence of writes.
pub open spec fn writes_view(writes: Seq<Write>) -> Seq<WriteView> {
    Seq::new(writes.len(), |i: int| writes[i]@)
}

/// Mathematical value of a snapshot that may be absent.
pub open spec fn snapshot_view(snapshot: Option<Snapshot>) -> Option<VersionedAccount> {
    match snapshot {
        Some(s) => Some(s@),
        None => None,
    }
}

/// The views of a sequence of loaded snapshots.
pub open spec fn snapshots_view(snapshots: Seq<Option<Snapshot>>) -> Seq<
    Option<VersionedAccount>,
> {
    Seq::new(snapshots.len(), |i: int| snapshot_view(snapshots[i]))
}

/// Mathematical value of an `Action`.
pub enum ActionView {
    Load(Seq<Seq<char>>),
    Commit(Seq<WriteView>),
    Reply(MessageView),
}

/// Mathematical value of an `Event`.
pub enum EventView {
    Loaded(Seq<Option<VersionedAccount>>),
    Committed,
    Conflicted,
    Failed(Seq<char>),
}

impl View for Action {
    type V = ActionView;

    open spec fn view(&self) -> ActionView {
        match self {
            Action::Load(keys) => ActionView::Load(keys_view(keys@)),
            Action::Commit(writes) => ActionView::Commit(writes_view(writes@)),
            Action::Reply(message) => ActionView::Reply(message@),
        }
    }
}

impl View for Event {
    type V = EventView;

    open spec fn view(&self) -> EventView {
        match self {
            Event::Loaded(snapshots) => EventView::Loaded(snapshots_view(snapshots@)),
            Event::Committed => EventView::Committed,
            Event::Conflicted => EventView::Conflicted,
            Event::Failed(text) => EventView::Failed(text@),
        }
    }
}

/// What a load of `key` finds in `store`.
pub open spec fn lookup(store: StoreState, key: Seq<char>) -> Option<VersionedAccount> {
    if store.contains_key(key) {
        Some(store[key])
    } else {
        None
    }
}

/// What a load of `keys` finds in `store`, in the same order.
pub open spec fn lookup_all(store: StoreState, keys: Seq<Seq<char>>) -> Seq<
    Option<VersionedAccount>,
> {
    Seq::new(keys.len(), |i: int| lookup(store, keys[i]))
}

/// The account of a snapshot, where there is one.
pub open spec fn account_of(loaded: Option<VersionedAccount>) -> Option<AccountView> {
    match loaded {
        Some(v) => Some(v.account),
        None => None,
    }
}

/// The version that a write must expect to replace what was loaded.
pub open spec fn version_of(loaded: Option<VersionedAccount>) -> Option<u64> {
    match loaded {
        Some(v) => Some(v.version),
        None => None,
    }
}

impl WriteView {
    /// The store still holds under the key what this write was computed from.
    pub open spec fn is_current(self, store: StoreState) -> bool {
        version_of(lookup(store, self.key)) == self.expected
    }

    /// The version counter has room for this write.
    pub open spec fn has_room(self) -> bool {
        self.expected != Some(u64::MAX)
    }

    /// The version that the record carries once this write is applied.
    pub open spec fn next_version(self) -> u64
        recommends
            self.has_room(),
    {
        match self.expected {
            Some(v) => (v + 1) as u64,
            None => 0,
        }
    }

    /// The store after this write alone has been applied.
    pub open spec fn applied(self, store: StoreState) -> StoreState {
        store.insert(
            self.key,
            VersionedAccount { version: self.next_version(), account: self.account },
        )
    }
}

/// Every write has room in the version counter.
pub open spec fn all_have_room(writes: Seq<WriteView>) -> bool {
    forall|i: int| 0 <= i < writes.len() ==> (#[trigger] writes[i]).has_room()
}

/// Every write still finds in `store` the version it expects.
pub open spec fn all_current(store: StoreState, writes: Seq<WriteView>) -> bool {
    forall|i: int| 0 <= i < writes.len() ==> (#[trigger] writes[i]).is_current(store)
}

/// The store after all of `writes` have been applied, first to last.
pub open spec fn apply_writes(store: StoreState, writes: Seq<WriteView>) -> StoreState
    decreases writes.len(),
{
    if writes.len() == 0 {
        store
    } else {
        writes.last().applied(apply_writes(store, writes.drop_last()))
    }
}

/// Mathematical value of the answer to a commit.
pub enum CommitView {
    Committed,
    Conflicted,
    Exhausted,
}

/// How a commit of `writes` against `store` ends: refused where a version
/// counter is used up, a conflict where any write is stale, else committed.
pub open spec fn commit_verdict(store: StoreState, writes: Seq<WriteView>) -> CommitView {
    if !all_have_room(writes) {
        CommitView::Exhausted
    } else if !all_current(store, writes) {
        CommitView::Conflicted
    } else {
        CommitView::Committed
    }
}

/// The store after a commit of `writes` was attempted: all of them applied, or
/// the store as it was.
pub open spec fn after_commit(store: StoreState, writes: Seq<WriteView>) -> StoreState {
    if commit_verdict(store, writes) is Committed {
        apply_writes(store, writes)
    } else {
        store
    }
}

} // verus!
