//! What holds of the ledger whatever requests it serves.

use crate::error::{LedgerErrorView, Party};
use crate::handler::ecosystem::account_key_text;
use crate::ledger::handled;
use crate::message::ecosystem::{CreditChangeView, TransferView};
use crate::message::{MessageDataView, MessageType, MessageView};
use crate::model::ecosystem::lemma_history_total_push;
use crate::router::{planned, request_keys};
use crate::store::{apply_writes, lookup, lookup_all, StoreState, WriteView};
use vstd::prelude::*;

verus! {

/// Two users never share a key.
pub proof fn lemma_account_key_injective(a: Seq<char>, b: Seq<char>)
    requires
        account_key_text(a) == account_key_text(b),
    ensures
        a == b,
{
    let prefix = "ecosystem:account:"@;
    assert(a =~= (prefix + a).subrange(prefix.len() as int, (prefix + a).len() as int));
    assert(b =~= (prefix + b).subrange(prefix.len() as int, (prefix + b).len() as int));
}

/// Applying a single write is applying it to the store as it was.
pub proof fn lemma_apply_one(store: StoreState, w: WriteView)
    ensures
        apply_writes(store, seq![w]) == w.applied(store),
{
    reveal_with_fuel(apply_writes, 2);
}

/// Applying two writes is applying the second on top of the first.
pub proof fn lemma_apply_two(store: StoreState, first: WriteView, second: WriteView)
    ensures
        apply_writes(store, seq![first, second]) == second.applied(first.applied(store)),
{
    assert(seq![first, second].drop_last() =~= seq![first]);
    lemma_apply_one(store, first);
}

/// The message that asks to alter an account as `d` says.
pub open spec fn alter_request(d: CreditChangeView) -> MessageView {
    MessageView::carrying(MessageDataView::AlterUserCreditRequest(d))
}

/// The message that asks for the transfer `t`.
pub open spec fn transfer_request(t: TransferView) -> MessageView {
    MessageView::carrying(MessageDataView::TransferCreditRequest(t))
}

/// The message that asks to read the account of `user_id`.
pub open spec fn get_request(user_id: Seq<char>) -> MessageView {
    MessageView::carrying(MessageDataView::GetUserCreditRequest(user_id))
}

/// An alter never leaves a negative credit. Where the delta would carry the
/// credit below zero, the store stays exactly as it was and the reply reports
/// insufficient credit; where the store does change, the account holds the old
/// credit plus the delta, which is not negative, and no other key is touched.
pub proof fn law_alter_never_goes_negative(store: StoreState, d: CreditChangeView, now: i64)
    ensures
        ({
            let key = account_key_text(d.user_id);
            let after = handled(store, alter_request(d), now).0;
            let reply = handled(store, alter_request(d), now).1;
            &&& (lookup(store, key) matches Some(v) && v.account.credit + d.credit < 0) ==> after
                == store && reply == MessageView::error(LedgerErrorView::InsufficientCredit)
            &&& reply.message_type != MessageType::EcosytemAlterUserCreditResponse ==> after
                == store
            &&& reply.message_type == MessageType::EcosytemAlterUserCreditResponse ==> {
                &&& store.contains_key(key)
                &&& after.contains_key(key)
                &&& after[key].account.credit == store[key].account.credit + d.credit
                &&& after[key].account.credit >= 0
                &&& forall|other: Seq<char>| other != key ==> lookup(after, other) == lookup(
                    store,
                    other,
                )
            }
        }),
{
    let key = account_key_text(d.user_id);
    let plan = planned(alter_request(d).data, lookup_all(store, seq![key]), now);
    if plan.writes.len() != 0 {
        lemma_apply_one(store, plan.writes[0]);
    }
}

/// A transfer names the account that is missing, whatever the amount and
/// whoever the parties are: the debited account where that one is missing, else
/// the credited account. The store stays exactly as it was; the account that
/// exists is neither debited nor credited and the one that is missing is not
/// created.
pub proof fn law_transfer_reports_missing_account(store: StoreState, t: TransferView, now: i64)
    ensures
        ({
            let from = account_key_text(t.from_user_id);
            let to = account_key_text(t.to_user_id);
            let after = handled(store, transfer_request(t), now).0;
            let reply = handled(store, transfer_request(t), now).1;
            &&& !store.contains_key(from) ==> after == store && reply == MessageView::error(
                LedgerErrorView::NotFound(Party::FromUser),
            )
            &&& store.contains_key(from) && !store.contains_key(to) ==> after == store && reply
                == MessageView::error(LedgerErrorView::NotFound(Party::ToUser))
        }),
{
}

/// A transfer of more than the debited account holds is refused for
/// insufficient credit, whatever else is true of the request, and the store
/// stays exactly as it was: neither credit changes and neither history grows.
pub proof fn law_transfer_reports_insufficient_credit(
    store: StoreState,
    t: TransferView,
    now: i64,
)
    ensures
        ({
            let from = account_key_text(t.from_user_id);
            let to = account_key_text(t.to_user_id);
            let after = handled(store, transfer_request(t), now).0;
            let reply = handled(store, transfer_request(t), now).1;
            store.contains_key(from) && store.contains_key(to) && store[from].account.credit
                < t.credit ==> after == store && reply == MessageView::error(
                LedgerErrorView::InsufficientCredit,
            )
        }),
{
}

/// A transfer that fails changes nothing: whatever reply is not the transfer
/// reply leaves the store exactly as it was.
pub proof fn law_failed_transfer_changes_nothing(store: StoreState, t: TransferView, now: i64)
    ensures
        ({
            let after = handled(store, transfer_request(t), now).0;
            let reply = handled(store, transfer_request(t), now).1;
            reply.message_type != MessageType::EcosytemTransferUserCreditResponse ==> after
                == store
        }),
{
}

/// A transfer that succeeds conserves credit: both accounts existed and still
/// exist, the two credits add up to what they added up to before, the debited
/// account is not negative, and no other key is touched.
pub proof fn law_transfer_conserves_credit(store: StoreState, t: TransferView, now: i64)
    ensures
        ({
            let from = account_key_text(t.from_user_id);
            let to = account_key_text(t.to_user_id);
            let after = handled(store, transfer_request(t), now).0;
            let reply = handled(store, transfer_request(t), now).1;
            reply.message_type == MessageType::EcosytemTransferUserCreditResponse ==> {
                &&& from != to
                &&& store.contains_key(from) && store.contains_key(to)
                &&& after.contains_key(from) && after.contains_key(to)
                &&& after[from].account.credit + after[to].account.credit
                    == store[from].account.credit + store[to].account.credit
                &&& after[from].account.credit == store[from].account.credit - t.credit
                &&& after[from].account.credit >= 0
                &&& after[to].account.credit >= store[to].account.credit
                &&& forall|other: Seq<char>|
                    other != from && other != to ==> lookup(after, other) == lookup(store, other)
            }
        }),
{
    let from = account_key_text(t.from_user_id);
    let to = account_key_text(t.to_user_id);
    let plan = planned(transfer_request(t).data, lookup_all(store, seq![from, to]), now);
    if plan.writes.len() != 0 {
        lemma_apply_two(store, plan.writes[0], plan.writes[1]);
        if from == to {
            lemma_account_key_injective(t.from_user_id, t.to_user_id);
        }
    }
}

/// A get is a pure read: it leaves the store exactly as it was, so a second
/// get of the same account, at whatever time, is answered as the first.
pub proof fn law_get_is_pure(store: StoreState, user_id: Seq<char>, first: i64, second: i64)
    ensures
        handled(store, get_request(user_id), first).0 == store,
        handled(handled(store, get_request(user_id), first).0, get_request(user_id), second).1
            == handled(store, get_request(user_id), first).1,
{
}

/// How the record under one key may change while the ledger serves requests
/// other than sets: it is never created nor removed, its history only grows
/// at the end, and the part of its credit that the history does not account
/// for stays what it was.
pub open spec fn keeps_audit(before: StoreState, after: StoreState, key: Seq<char>) -> bool {
    match lookup(before, key) {
        Some(v) => lookup(after, key) matches Some(w) && w.account.extends(v.account)
            && w.account.unaudited() == v.account.unaudited(),
        None => lookup(after, key) is None,
    }
}

/// The account under `key` exists and replaying its history from zero gives its
/// credit.
pub open spec fn store_is_audited_at(store: StoreState, key: Seq<char>) -> bool {
    lookup(store, key) matches Some(v) && v.account.is_audited()
}

/// Whether `message` carries a set request, the one request that writes a
/// credit without a history entry.
pub open spec fn is_set(message: MessageView) -> bool {
    message.data is SetUserCreditRequest
}

/// How the record under one key may change whatever the ledger serves: once
/// there it stays, and its history only grows at the end.
pub open spec fn keeps_history(before: StoreState, after: StoreState, key: Seq<char>) -> bool {
    lookup(before, key) matches Some(v) ==> (lookup(after, key) matches Some(w)
        && w.account.extends(v.account))
}

/// The store after the ledger has served `requests`, each at its time, first to
/// last.
pub open spec fn served(store: StoreState, requests: Seq<(MessageView, i64)>) -> StoreState
    decreases requests.len(),
{
    if requests.len() == 0 {
        store
    } else {
        handled(
            served(store, requests.drop_last()),
            requests.last().0,
            requests.last().1,
        ).0
    }
}

/// Serving one request that is no set keeps the audit of every account.
pub proof fn lemma_step_keeps_audit(
    store: StoreState,
    message: MessageView,
    now: i64,
    key: Seq<char>,
)
    requires
        !is_set(message),
    ensures
        keeps_audit(store, handled(store, message, now).0, key),
{
    match request_keys(message.data) {
        Some(keys) => {
            let plan = planned(message.data, lookup_all(store, keys), now);
            if plan.writes.len() == 1 {
                lemma_apply_one(store, plan.writes[0]);
                let old_account = store[plan.writes[0].key].account;
                lemma_history_total_push(
                    old_account.alter_records,
                    plan.writes[0].account.alter_records.last(),
                );
            } else if plan.writes.len() == 2 {
                lemma_apply_two(store, plan.writes[0], plan.writes[1]);
                let t = message.data->TransferCreditRequest_0;
                if plan.writes[0].key == plan.writes[1].key {
                    lemma_account_key_injective(t.from_user_id, t.to_user_id);
                }
                lemma_history_total_push(
                    store[plan.writes[0].key].account.alter_records,
                    plan.writes[0].account.alter_records.last(),
                );
                lemma_history_total_push(
                    store[plan.writes[1].key].account.alter_records,
                    plan.writes[1].account.alter_records.last(),
                );
            }
        },
        None => {},
    }
}

/// Serving one request, of whatever kind, removes no account and no history
/// entry.
pub proof fn lemma_step_keeps_history(
    store: StoreState,
    message: MessageView,
    now: i64,
    key: Seq<char>,
)
    ensures
        keeps_history(store, handled(store, message, now).0, key),
{
    if is_set(message) {
        let keys = request_keys(message.data)->0;
        let plan = planned(message.data, lookup_all(store, keys), now);
        lemma_apply_one(store, plan.writes[0]);
    } else {
        lemma_step_keeps_audit(store, message, now, key);
    }
}

/// The history is a faithful audit log. Over any sequence of requests without
/// a set, every account keeps the difference between its credit and the total
/// of its history; so an account whose credit was the total of its history
/// before is so after, and replaying its history from zero gives its credit.
/// No such sequence creates or removes an account, and every history only grows
/// at the end.
pub proof fn law_history_is_faithful(
    store: StoreState,
    requests: Seq<(MessageView, i64)>,
    key: Seq<char>,
)
    requires
        forall|i: int| 0 <= i < requests.len() ==> !is_set((#[trigger] requests[i]).0),
    ensures
        keeps_audit(store, served(store, requests), key),
        lookup(store, key) matches Some(v) && v.account.is_audited() ==> store_is_audited_at(
            served(store, requests),
            key,
        ),
    decreases requests.len(),
{
    if requests.len() > 0 {
        let earlier = requests.drop_last();
        let last = requests.last();
        assert forall|i: int| 0 <= i < earlier.len() implies !is_set(
            (#[trigger] earlier[i]).0,
        ) by {
            assert(earlier[i] == requests[i]);
        }
        law_history_is_faithful(store, earlier, key);
        assert(last == requests[requests.len() - 1]);
        lemma_step_keeps_audit(served(store, earlier), last.0, last.1, key);
    }
}

/// Histories are append-only. Over any sequence of requests, sets included, an
/// account that exists stays, and every entry of its history stays where it
/// was, unchanged.
pub proof fn law_history_is_append_only(
    store: StoreState,
    requests: Seq<(MessageView, i64)>,
    key: Seq<char>,
)
    ensures
        keeps_history(store, served(store, requests), key),
    decreases requests.len(),
{
    if requests.len() > 0 {
        law_history_is_append_only(store, requests.drop_last(), key);
        lemma_step_keeps_history(
            served(store, requests.drop_last()),
            requests.last().0,
            requests.last().1,
            key,
        );
    }
}

} // verus!
