//! The message router: from a request and the answers of the store to the next
//! thing to ask of the store, and in the end to the reply.
//!
//! The router never touches the store itself. It says what to load, plans the
//! writes from what was loaded, and has them committed as one unit that takes
//! effect only if nothing it read has changed since. Where the commit finds a
//! conflict it starts over from a fresh load, a bounded number of times.

use crate::clock::unix_now;
use crate::error::{LedgerError, LedgerErrorView};
use crate::handler::ecosystem::{
    account_key, account_key_text, alter_outcome, alter_user_credit_at, get_outcome,
    get_user_credit, set_outcome, set_user_credit, stored_view, transfer_outcome,
    transfer_user_credit_at,
};
use crate::message::ecosystem::{CreditChangeView, TransferOutcomeView, TransferView, UserCreditView};
use crate::message::{Message, MessageData, MessageDataView, MessageView};
use crate::model::ecosystem::EcosystemUserAccountRecord;
use crate::store::{
    account_of, keys_view, snapshot_view, snapshots_view, version_of, writes_view, Action,
    ActionView, Event, EventView, Snapshot, VersionedAccount, Write, WriteView,
};
use vstd::prelude::*;

verus! {

/// How often a request starts over after a conflict, unless told otherwise.
pub const DEFAULT_RETRIES: u32 = 3;

/// The text of the failure reported where the store answers what was not asked.
pub open spec fn unexpected_text() -> Seq<char> {
    "unexpected answer from the store"@
}

/// The keys that a request needs loaded, in order; `None` for a payload that is
/// no request.
pub open spec fn request_keys(request: MessageDataView) -> Option<Seq<Seq<char>>> {
    match request {
        MessageDataView::SetUserCreditRequest(d) => Some(seq![account_key_text(d.user_id)]),
        MessageDataView::GetUserCreditRequest(user_id) => Some(seq![account_key_text(user_id)]),
        MessageDataView::AlterUserCreditRequest(d) => Some(seq![account_key_text(d.user_id)]),
        MessageDataView::TransferCreditRequest(t) => Some(
            seq![account_key_text(t.from_user_id), account_key_text(t.to_user_id)],
        ),
        _ => None,
    }
}

/// Mathematical value of a plan: the writes to commit and the reply to send
/// once they are committed.
pub struct PlanView {
    pub writes: Seq<WriteView>,
    pub reply: MessageView,
}

impl PlanView {
    /// The plan that writes nothing and reports the failure `e`.
    pub open spec fn refusal(e: LedgerErrorView) -> PlanView {
        PlanView { writes: Seq::empty(), reply: MessageView::error(e) }
    }
}

/// The plan of a set request.
pub open spec fn planned_set(d: CreditChangeView, loaded: Option<VersionedAccount>) -> PlanView {
    PlanView {
        writes: seq![
            WriteView {
                key: account_key_text(d.user_id),
                expected: version_of(loaded),
                account: set_outcome(account_of(loaded), d.credit),
            },
        ],
        reply: MessageView::carrying(
            MessageDataView::SetUserCreditResponse(
                UserCreditView { user_id: d.user_id, credit: d.credit },
            ),
        ),
    }
}

/// The plan of a get request.
pub open spec fn planned_get(user_id: Seq<char>, loaded: Option<VersionedAccount>) -> PlanView {
    match get_outcome(account_of(loaded), user_id) {
        Ok(found) => PlanView {
            writes: Seq::empty(),
            reply: MessageView::carrying(MessageDataView::GetUserCreditResponse(found)),
        },
        Err(e) => PlanView::refusal(e),
    }
}

/// The plan of an alter request at time `now`.
pub open spec fn planned_alter(d: CreditChangeView, loaded: Option<VersionedAccount>, now: i64)
    -> PlanView {
    match alter_outcome(account_of(loaded), d, now) {
        Ok(account) => PlanView {
            writes: seq![
                WriteView {
                    key: account_key_text(d.user_id),
                    expected: version_of(loaded),
                    account,
                },
            ],
            reply: MessageView::carrying(
                MessageDataView::AlterUserCreditResponse(
                    UserCreditView { user_id: d.user_id, credit: account.credit },
                ),
            ),
        },
        Err(e) => PlanView::refusal(e),
    }
}

/// The plan of a transfer request at time `now`: both legs in one commit.
pub open spec fn planned_transfer(
    t: TransferView,
    from: Option<VersionedAccount>,
    to: Option<VersionedAccount>,
    now: i64,
) -> PlanView {
    match transfer_outcome(t, account_of(from), account_of(to), now) {
        Ok(accounts) => PlanView {
            writes: seq![
                WriteView {
                    key: account_key_text(t.from_user_id),
                    expected: version_of(from),
                    account: accounts.0,
                },
                WriteView {
                    key: account_key_text(t.to_user_id),
                    expected: version_of(to),
                    account: accounts.1,
                },
            ],
            reply: MessageView::carrying(
                MessageDataView::TransferCreditResponse(
                    TransferOutcomeView {
                        from_user_id: t.from_user_id,
                        from_user_credit: accounts.0.credit,
                        to_user_id: t.to_user_id,
                        to_user_credit: accounts.1.credit,
                    },
                ),
            ),
        },
        Err(e) => PlanView::refusal(e),
    }
}

/// What the router plans for `request` at time `now`, given what the store
/// held under the request's keys. A payload that is no request is a bad
/// request; an answer of the wrong length is a storage error.
pub open spec fn planned(
    request: MessageDataView,
    loaded: Seq<Option<VersionedAccount>>,
    now: i64,
) -> PlanView {
    match request_keys(request) {
        None => PlanView::refusal(LedgerErrorView::BadRequest),
        Some(keys) => {
            if loaded.len() != keys.len() {
                PlanView::refusal(LedgerErrorView::StorageError(unexpected_text()))
            } else {
                match request {
                    MessageDataView::SetUserCreditRequest(d) => planned_set(d, loaded[0]),
                    MessageDataView::GetUserCreditRequest(user_id) => planned_get(
                        user_id,
                        loaded[0],
                    ),
                    MessageDataView::AlterUserCreditRequest(d) => planned_alter(
                        d,
                        loaded[0],
                        now,
                    ),
                    MessageDataView::TransferCreditRequest(t) => planned_transfer(
                        t,
                        loaded[0],
                        loaded[1],
                        now,
                    ),
                    _ => PlanView::refusal(LedgerErrorView::BadRequest),
                }
            }
        },
    }
}

/// The writes to commit and the reply to send once they are committed.
#[derive(Debug, PartialEq, Eq)]
pub struct Plan {
    pub writes: Vec<Write>,
    pub reply: Message,
}

impl View for Plan {
    type V = PlanView;

    open spec fn view(&self) -> PlanView {
        PlanView { writes: writes_view(self.writes@), reply: self.reply@ }
    }
}

impl Plan {
    /// The plan that writes nothing and reports the failure `e`.
    fn refusal(e: &LedgerError) -> (res: Plan)
        ensures
            res@ == PlanView::refusal(e@),
    {
        let res = Plan { writes: Vec::new(), reply: Message::error(e) };
        assert(res@.writes =~= Seq::empty());
        res
    }
}

/// Parts a loaded snapshot into its record and its version.
fn part(snapshot: Option<Snapshot>) -> (res: (Option<EcosystemUserAccountRecord>, Option<u64>))
    ensures
        stored_view(res.0) == account_of(snapshot_view(snapshot)),
        res.1 == version_of(snapshot_view(snapshot)),
{
    match snapshot {
        Some(s) => (Some(s.record), Some(s.version)),
        None => (None, None),
    }
}

/// The keys that a request needs loaded, in order; `None` for a payload that is
/// no request.
pub fn keys_of(request: &MessageData) -> (res: Option<Vec<String>>)
    ensures
        match request_keys(request@) {
            Some(keys) => res matches Some(found) && keys_view(found@) == keys,
            None => res is None,
        },
{
    let mut keys: Vec<String> = Vec::new();
    match request {
        MessageData::SetUserCreditRequest(d) => {
            keys.push(account_key(d.user_id.as_str()));
        },
        MessageData::GetUserCreditRequest(d) => {
            keys.push(account_key(d.user_id.as_str()));
        },
        MessageData::AlterUserCreditRequest(d) => {
            keys.push(account_key(d.user_id.as_str()));
        },
        MessageData::TransferCreditRequest(t) => {
            keys.push(account_key(t.from_user_id.as_str()));
            keys.push(account_key(t.to_user_id.as_str()));
        },
        _ => {
            return None;
        },
    }
    Some(keys)
}

/// Plans the writes and the reply for `request` at time `now` from the
/// snapshots that the store answered with.
pub fn plan(request: &MessageData, loaded: Vec<Option<Snapshot>>, now: i64) -> (res: Plan)
    ensures
        res@ == planned(request@, snapshots_view(loaded@), now),
{
    let mut loaded = loaded;
    let ghost given = snapshots_view(loaded@);
    match request {
        MessageData::SetUserCreditRequest(d) => {
            if loaded.len() != 1 {
                return Plan::refusal(
                    &LedgerError::StorageError("unexpected answer from the store".to_owned()),
                );
            }
            let (stored, expected) = part(loaded.pop().unwrap());
            let (record, response) = set_user_credit(d.clone(), stored);
            let mut writes: Vec<Write> = Vec::new();
            writes.push(Write { key: account_key(d.user_id.as_str()), expected, record });
            let res = Plan {
                writes,
                reply: Message::carrying(MessageData::SetUserCreditResponse(response)),
            };
            assert(res@.writes =~= planned_set(d@, given[0]).writes);
            res
        },
        MessageData::GetUserCreditRequest(d) => {
            if loaded.len() != 1 {
                return Plan::refusal(
                    &LedgerError::StorageError("unexpected answer from the store".to_owned()),
                );
            }
            let (stored, _) = part(loaded.pop().unwrap());
            match get_user_credit(d.clone(), stored) {
                Ok(response) => {
                    let res = Plan {
                        writes: Vec::new(),
                        reply: Message::carrying(MessageData::GetUserCreditResponse(response)),
                    };
                    assert(res@.writes =~= Seq::empty());
                    res
                },
                Err(e) => Plan::refusal(&e),
            }
        },
        MessageData::AlterUserCreditRequest(d) => {
            if loaded.len() != 1 {
                return Plan::refusal(
                    &LedgerError::StorageError("unexpected answer from the store".to_owned()),
                );
            }
            let (stored, expected) = part(loaded.pop().unwrap());
            match alter_user_credit_at(d.clone(), stored, now) {
                Ok((record, response)) => {
                    let mut writes: Vec<Write> = Vec::new();
                    writes.push(Write { key: account_key(d.user_id.as_str()), expected, record });
                    let res = Plan {
                        writes,
                        reply: Message::carrying(MessageData::AlterUserCreditResponse(response)),
                    };
                    assert(res@.writes =~= planned_alter(d@, given[0], now).writes);
                    res
                },
                Err(e) => Plan::refusal(&e),
            }
        },
        MessageData::TransferCreditRequest(t) => {
            if loaded.len() != 2 {
                return Plan::refusal(
                    &LedgerError::StorageError("unexpected answer from the store".to_owned()),
                );
            }
            let (to_stored, to_expected) = part(loaded.pop().unwrap());
            let (from_stored, from_expected) = part(loaded.pop().unwrap());
            match transfer_user_credit_at(t.clone(), from_stored, to_stored, now) {
                Ok((from_record, to_record, response)) => {
                    let mut writes: Vec<Write> = Vec::new();
                    writes.push(
                        Write {
                            key: account_key(t.from_user_id.as_str()),
                            expected: from_expected,
                            record: from_record,
                        },
                    );
                    writes.push(
                        Write {
                            key: account_key(t.to_user_id.as_str()),
                            expected: to_expected,
                            record: to_record,
                        },
                    );
                    let res = Plan {
                        writes,
                        reply: Message::carrying(MessageData::TransferCreditResponse(response)),
                    };
                    assert(res@.writes =~= planned_transfer(
                        t@,
                        given[0],
                        given[1],
                        now,
                    ).writes);
                    res
                },
                Err(e) => Plan::refusal(&e),
            }
        },
        _ => Plan::refusal(&LedgerError::BadRequest),
    }
}

/// Mathematical value of a session.
pub struct SessionView {
    /// The payload of the request being served.
    pub request: MessageDataView,
    /// The time that the request's history entries will carry.
    pub now: i64,
    /// How often the request may still start over after a conflict.
    pub retries_left: u32,
    /// The reply that waits for its commit, where one is under way.
    pub pending: Option<MessageView>,
}

/// One request on its way through the router.
#[derive(Debug, PartialEq, Eq)]
pub struct Session {
    request: MessageData,
    now: i64,
    retries_left: u32,
    pending: Option<Message>,
}

/// Mathematical value of a message that may be absent.
pub open spec fn pending_view(pending: Option<Message>) -> Option<MessageView> {
    match pending {
        Some(message) => Some(message@),
        None => None,
    }
}

/// Mathematical value of a session that may be over.
pub open spec fn session_view(session: Option<Session>) -> Option<SessionView> {
    match session {
        Some(s) => Some(s@),
        None => None,
    }
}

impl View for Session {
    type V = SessionView;

    closed spec fn view(&self) -> SessionView {
        SessionView {
            request: self.request@,
            now: self.now,
            retries_left: self.retries_left,
            pending: pending_view(self.pending),
        }
    }
}

/// The step that ends a session with the failure `e`.
pub open spec fn ended(e: LedgerErrorView) -> (Option<SessionView>, ActionView) {
    (None, ActionView::Reply(MessageView::error(e)))
}

/// How the router opens on `message` at time `now`: a coherent request starts
/// a session that first loads the request's keys; anything else is answered at
/// once as a bad request.
pub open spec fn opening(message: MessageView, now: i64, retries: u32) -> (
    Option<SessionView>,
    ActionView,
) {
    match request_keys(message.data) {
        Some(keys) => {
            if message.is_coherent() {
                (
                    Some(
                        SessionView {
                            request: message.data,
                            now,
                            retries_left: retries,
                            pending: None,
                        },
                    ),
                    ActionView::Load(keys),
                )
            } else {
                ended(LedgerErrorView::BadRequest)
            }
        },
        None => ended(LedgerErrorView::BadRequest),
    }
}

/// How a session goes on when the store has answered with `event`: the session
/// that remains, if any, and what to do next.
///
/// - A failure of the store ends the session with a storage error.
/// - What was loaded is planned on: a plan without writes is answered at once,
///   one with writes has them committed and keeps its reply waiting.
/// - A commit that took effect releases the waiting reply.
/// - A conflict starts over from a fresh load while retries are left, and ends
///   the session with a conflict when there are none.
/// - An answer that fits nothing the session asked ends it with a storage error.
pub open spec fn next(session: SessionView, event: EventView) -> (
    Option<SessionView>,
    ActionView,
) {
    match event {
        EventView::Failed(text) => ended(LedgerErrorView::StorageError(text)),
        EventView::Loaded(loaded) => {
            if session.pending is Some {
                ended(LedgerErrorView::StorageError(unexpected_text()))
            } else {
                let plan = planned(session.request, loaded, session.now);
                if plan.writes.len() == 0 {
                    (None, ActionView::Reply(plan.reply))
                } else {
                    (
                        Some(SessionView { pending: Some(plan.reply), ..session }),
                        ActionView::Commit(plan.writes),
                    )
                }
            }
        },
        EventView::Committed => {
            match session.pending {
                Some(reply) => (None, ActionView::Reply(reply)),
                None => ended(LedgerErrorView::StorageError(unexpected_text())),
            }
        },
        EventView::Conflicted => {
            if session.pending is None {
                ended(LedgerErrorView::StorageError(unexpected_text()))
            } else if session.retries_left == 0 || request_keys(session.request) is None {
                ended(LedgerErrorView::Conflict)
            } else {
                (
                    Some(
                        SessionView {
                            pending: None,
                            retries_left: (session.retries_left - 1) as u32,
                            ..session
                        },
                    ),
                    ActionView::Load(request_keys(session.request)->0),
                )
            }
        },
    }
}

/// The step that ends a session with the failure `e`.
fn end(e: &LedgerError) -> (res: (Option<Session>, Action))
    ensures
        session_view(res.0) == ended(e@).0,
        res.1@ == ended(e@).1,
{
    (None, Action::Reply(Message::error(e)))
}

impl Session {
    /// Opens on `message` at time `now`, with `retries` fresh starts allowed
    /// after conflicts.
    pub fn begin_at(message: Message, now: i64, retries: u32) -> (res: (Option<Session>, Action))
        ensures
            session_view(res.0) == opening(message@, now, retries).0,
            res.1@ == opening(message@, now, retries).1,
    {
        if !message.is_coherent() {
            return end(&LedgerError::BadRequest);
        }
        match keys_of(&message.data) {
            Some(keys) => (
                Some(Session { request: message.data, now, retries_left: retries, pending: None }),
                Action::Load(keys),
            ),
            None => end(&LedgerError::BadRequest),
        }
    }

    /// Opens on `message` at the time the clock shows, with `retries` fresh
    /// starts allowed after conflicts.
    ///
    /// What is asked of the store first, or that the message is refused, does
    /// not depend on the clock; the session that starts is that of `begin_at`
    /// for some time.
    pub fn begin(message: Message, retries: u32) -> (res: (Option<Session>, Action))
        ensures
            exists|now: i64|
                session_view(res.0) == (#[trigger] opening(message@, now, retries)).0,
            res.1@ == opening(message@, 0, retries).1,
    {
        let now = unix_now();
        Session::begin_at(message, now, retries)
    }

    /// Takes the store's answer and says what to do next; `None` for the
    /// session means that the request is done and the action is its reply.
    pub fn step(self, event: Event) -> (res: (Option<Session>, Action))
        ensures
            session_view(res.0) == next(self@, event@).0,
            res.1@ == next(self@, event@).1,
    {
        match event {
            Event::Failed(text) => end(&LedgerError::StorageError(text)),
            Event::Loaded(loaded) => {
                if self.pending.is_some() {
                    return end(
                        &LedgerError::StorageError("unexpected answer from the store".to_owned()),
                    );
                }
                let plan = plan(&self.request, loaded, self.now);
                if plan.writes.len() == 0 {
                    (None, Action::Reply(plan.reply))
                } else {
                    (
                        Some(
                            Session {
                                request: self.request,
                                now: self.now,
                                retries_left: self.retries_left,
                                pending: Some(plan.reply),
                            },
                        ),
                        Action::Commit(plan.writes),
                    )
                }
            },
            Event::Committed => {
                match self.pending {
                    Some(reply) => (None, Action::Reply(reply)),
                    None => end(
                        &LedgerError::StorageError("unexpected answer from the store".to_owned()),
                    ),
                }
            },
            Event::Conflicted => {
                if self.pending.is_none() {
                    return end(
                        &LedgerError::StorageError("unexpected answer from the store".to_owned()),
                    );
                }
                if self.retries_left == 0 {
                    return end(&LedgerError::Conflict);
                }
                match keys_of(&self.request) {
                    Some(keys) => (
                        Some(
                            Session {
                                request: self.request,
                                now: self.now,
                                retries_left: self.retries_left - 1,
                                pending: None,
                            },
                        ),
                        Action::Load(keys),
                    ),
                    None => end(&LedgerError::Conflict),
                }
            },
        }
    }
}

} // verus!
