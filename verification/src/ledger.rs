//! The ledger service over a repository held in memory: one request at a time,
//! from the message that asks to the message that answers.

use crate::clock::unix_now;
use crate::error::LedgerErrorView;
use crate::message::{Message, MessageView};
use crate::repository::{answers, exhausted_text, AccountRepository};
use crate::router::{opening, planned, request_keys, Session};
use crate::store::{
    all_current, apply_writes, commit_verdict, lookup_all, Action, ActionView, CommitView, Event,
    StoreState, VersionedAccount,
};
use vstd::prelude::*;

verus! {

/// What serving `message` at time `now` makes of `store`, and the reply.
///
/// A message that is no coherent request is answered as a bad request. A
/// request is planned on what the store holds under its keys; a plan without
/// writes leaves the store as it is, and a plan with writes has all of them
/// applied, unless a version counter is used up, which leaves the store as it
/// is and is answered as a storage error.
pub open spec fn handled(store: StoreState, message: MessageView, now: i64) -> (
    StoreState,
    MessageView,
) {
    match opening(message, now, 0).1 {
        ActionView::Load(keys) => {
            let plan = planned(message.data, lookup_all(store, keys), now);
            if plan.writes.len() == 0 {
                (store, plan.reply)
            } else {
                match commit_verdict(store, plan.writes) {
                    CommitView::Committed => (apply_writes(store, plan.writes), plan.reply),
                    CommitView::Conflicted => (
                        store,
                        MessageView::error(LedgerErrorView::Conflict),
                    ),
                    CommitView::Exhausted => (
                        store,
                        MessageView::error(LedgerErrorView::StorageError(exhausted_text())),
                    ),
                }
            }
        },
        ActionView::Reply(reply) => (store, reply),
        ActionView::Commit(_) => (store, MessageView::error(LedgerErrorView::BadRequest)),
    }
}

/// A plan made from what the store holds now finds every version it expects:
/// a ledger that serves one request at a time never meets a conflict.
pub proof fn lemma_fresh_plan_is_current(store: StoreState, message: MessageView, now: i64)
    requires
        request_keys(message.data) is Some,
    ensures
        all_current(
            store,
            planned(
                message.data,
                lookup_all(store, request_keys(message.data)->0),
                now,
            ).writes,
        ),
{
}

/// A ledger whose accounts are held in memory.
pub struct Ledger {
    repository: AccountRepository,
}

impl View for Ledger {
    type V = StoreState;

    closed spec fn view(&self) -> StoreState {
        self.repository@
    }
}

impl Ledger {
    /// A ledger without accounts.
    pub fn new() -> (res: Self)
        ensures
            res@ == Map::<Seq<char>, VersionedAccount>::empty(),
    {
        Ledger { repository: AccountRepository::new() }
    }

    /// Serves one request at time `now` and returns its reply.
    pub fn serve_at(&mut self, message: Message, now: i64) -> (reply: Message)
        ensures
            final(self)@ == handled(old(self)@, message@, now).0,
            reply@ == handled(old(self)@, message@, now).1,
    {
        proof {
            if request_keys(message@.data) is Some {
                lemma_fresh_plan_is_current(self@, message@, now);
            }
        }
        let (session, action) = Session::begin_at(message, now, 0);
        let (session, keys) = match (session, action) {
            (Some(session), Action::Load(keys)) => (session, keys),
            (_, Action::Reply(reply)) => {
                return reply;
            },
            _ => {
                proof {
                    assert(false);
                }
                vstd::pervasive::unreached()
            },
        };
        let loaded = self.repository.load_all(&keys);
        let (session, action) = session.step(Event::Loaded(loaded));
        let (session, writes) = match (session, action) {
            (Some(session), Action::Commit(writes)) => (session, writes),
            (_, Action::Reply(reply)) => {
                return reply;
            },
            _ => {
                proof {
                    assert(false);
                }
                vstd::pervasive::unreached()
            },
        };
        let answer = self.repository.commit(&writes);
        let (_, action) = session.step(answer);
        match action {
            Action::Reply(reply) => reply,
            _ => {
                proof {
                    assert(false);
                }
                vstd::pervasive::unreached()
            },
        }
    }

    /// Serves one request at the time the clock shows and returns its reply.
    ///
    /// The result is that of `serve_at` for some time.
    pub fn serve(&mut self, message: Message) -> (reply: Message)
        ensures
            exists|now: i64|
                {
                    &&& final(self)@ == (#[trigger] handled(old(self)@, message@, now)).0
                    &&& reply@ == handled(old(self)@, message@, now).1
                },
    {
        let now = unix_now();
        self.serve_at(message, now)
    }
}

} // verus!
