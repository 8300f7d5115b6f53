//! Many callers against one store: why conditional writes lose no update.
//!
//! Each caller serves a request of its own the way the router does: it loads
//! the request's keys, plans on what it loaded, and commits the plan on
//! condition that nothing it read has changed. A schedule interleaves the
//! loads and commits of the callers in any order. Whatever the schedule, every
//! commit that takes effect does to the store exactly what serving the request
//! alone, at that moment, would have done.

use crate::handler::ecosystem::account_key_text;
use crate::laws::{lemma_account_key_injective, lemma_apply_one, lemma_apply_two, served};
use crate::ledger::handled;
use crate::message::{MessageDataView, MessageView};
use crate::router::{planned, request_keys};
use crate::store::{apply_writes, commit_verdict, lookup, lookup_all, StoreState, VersionedAccount};
use vstd::prelude::*;

verus! {

/// One move of a schedule: the caller that moves, whether it commits what it
/// holds or loads afresh, and the time on its clock.
pub struct Move {
    pub caller: int,
    pub commits: bool,
    pub now: i64,
}

/// The request that each caller serves.
pub type Requests = Map<int, MessageDataView>;

/// Several callers at work on one store.
pub struct Race {
    /// The store that all callers share.
    pub store: StoreState,
    /// What each caller loaded and has not yet planned on.
    pub held: Map<int, Seq<Option<VersionedAccount>>>,
    /// The callers whose commit took effect.
    pub done: Set<int>,
}

/// A snapshot taken earlier is consistent with what the store holds now: it is
/// not newer, and where it has the store's version it is what the store holds.
pub open spec fn snapshot_is_sound(
    held: Option<VersionedAccount>,
    current: Option<VersionedAccount>,
) -> bool {
    held matches Some(v) ==> (current matches Some(w) && v.version <= w.version && (v.version
        == w.version ==> v == w))
}

/// What one caller holds for `keys` is consistent with what the store holds
/// now.
pub open spec fn holding_is_sound(
    held: Seq<Option<VersionedAccount>>,
    store: StoreState,
    keys: Seq<Seq<char>>,
) -> bool {
    &&& held.len() == keys.len()
    &&& forall|i: int|
        0 <= i < keys.len() ==> snapshot_is_sound(#[trigger] held[i], lookup(store, keys[i]))
}

impl Race {
    /// The race before anyone has moved.
    pub open spec fn start(store: StoreState) -> Race {
        Race { store, held: Map::empty(), done: Set::empty() }
    }

    /// Whether the caller of `m` is still at work on a request.
    pub open spec fn is_open(self, m: Move, requests: Requests) -> bool {
        &&& requests.contains_key(m.caller)
        &&& request_keys(requests[m.caller]) is Some
        &&& !self.done.contains(m.caller)
    }

    /// Whether the commit that `m` attempts takes effect.
    pub open spec fn lands(self, m: Move, requests: Requests) -> bool {
        &&& m.commits
        &&& self.is_open(m, requests)
        &&& self.held.contains_key(m.caller)
        &&& planned(requests[m.caller], self.held[m.caller], m.now).writes.len() > 0
        &&& commit_verdict(
            self.store,
            planned(requests[m.caller], self.held[m.caller], m.now).writes,
        ) is Committed
    }

    /// The race after the move `m`.
    ///
    /// A caller without a request, or one that is done, moves no more. A load
    /// replaces what the caller holds by what the store holds now. A commit
    /// uses up what the caller holds: where it lands its writes are applied and
    /// the caller is done, where it does not the store stays as it is and the
    /// caller has to load again.
    pub open spec fn moved(self, m: Move, requests: Requests) -> Race {
        if !self.is_open(m, requests) {
            self
        } else if !m.commits {
            Race {
                held: self.held.insert(
                    m.caller,
                    lookup_all(self.store, request_keys(requests[m.caller])->0),
                ),
                ..self
            }
        } else if !self.held.contains_key(m.caller) {
            self
        } else if self.lands(m, requests) {
            Race {
                store: apply_writes(
                    self.store,
                    planned(requests[m.caller], self.held[m.caller], m.now).writes,
                ),
                held: self.held.remove(m.caller),
                done: self.done.insert(m.caller),
            }
        } else {
            Race { held: self.held.remove(m.caller), ..self }
        }
    }

    /// The race after the whole schedule `moves`, first move first.
    pub open spec fn raced(self, moves: Seq<Move>, requests: Requests) -> Race
        decreases moves.len(),
    {
        if moves.len() == 0 {
            self
        } else {
            self.raced(moves.drop_last(), requests).moved(moves.last(), requests)
        }
    }

    /// What the caller `c` holds is consistent with the store for the keys of
    /// its request.
    pub open spec fn caller_is_sound(self, c: int, requests: Requests) -> bool {
        &&& requests.contains_key(c)
        &&& request_keys(requests[c]) is Some
        &&& holding_is_sound(self.held[c], self.store, request_keys(requests[c])->0)
    }

    /// Nothing that a caller holds can pass for current unless it is.
    pub open spec fn is_sound(self, requests: Requests) -> bool {
        forall|c: int|
            self.held.contains_key(c) ==> #[trigger] self.caller_is_sound(c, requests)
    }
}

/// One move keeps the race sound, and a commit that lands does to the store
/// exactly what serving the request alone at that moment does.
pub proof fn lemma_move_is_serial(race: Race, m: Move, requests: Requests)
    requires
        race.is_sound(requests),
    ensures
        race.moved(m, requests).is_sound(requests),
        race.lands(m, requests) ==> race.moved(m, requests).store == handled(
            race.store,
            MessageView::carrying(requests[m.caller]),
            m.now,
        ).0,
        !race.lands(m, requests) ==> race.moved(m, requests).store == race.store,
{
    let after = race.moved(m, requests);
    if race.lands(m, requests) {
        let request = requests[m.caller];
        let keys = request_keys(request)->0;
        let held = race.held[m.caller];
        let plan = planned(request, held, m.now);
        assert(race.caller_is_sound(m.caller, requests));
        assert(snapshot_is_sound(held[0], lookup(race.store, keys[0])));
        if plan.writes.len() == 1 {
            lemma_apply_one(race.store, plan.writes[0]);
            assert(plan.writes[0].is_current(race.store));
        } else {
            lemma_apply_two(race.store, plan.writes[0], plan.writes[1]);
            assert(snapshot_is_sound(held[1], lookup(race.store, keys[1])));
            assert(plan.writes[0].is_current(race.store));
            assert(plan.writes[1].is_current(race.store));
            let t = request->TransferCreditRequest_0;
            if keys[0] == keys[1] {
                lemma_account_key_injective(t.from_user_id, t.to_user_id);
            }
        }
        assert(held =~= lookup_all(race.store, keys));
        assert forall|c: int| after.held.contains_key(c) implies #[trigger] after.caller_is_sound(
            c,
            requests,
        ) by {
            assert(race.caller_is_sound(c, requests));
            let theirs = request_keys(requests[c])->0;
            assert forall|i: int| 0 <= i < theirs.len() implies snapshot_is_sound(
                #[trigger] after.held[c][i],
                lookup(after.store, theirs[i]),
            ) by {
                assert(snapshot_is_sound(race.held[c][i], lookup(race.store, theirs[i])));
            }
        }
    } else {
        assert forall|c: int| after.held.contains_key(c) implies #[trigger] after.caller_is_sound(
            c,
            requests,
        ) by {
            if race.held.contains_key(c) {
                assert(race.caller_is_sound(c, requests));
            }
        }
    }
}

/// Conditional writes keep every schedule sound: however the loads and commits
/// of the callers interleave, no caller ever commits a plan made from stale
/// data.
pub proof fn law_races_stay_sound(store: StoreState, moves: Seq<Move>, requests: Requests)
    ensures
        Race::start(store).raced(moves, requests).is_sound(requests),
    decreases moves.len(),
{
    if moves.len() > 0 {
        law_races_stay_sound(store, moves.drop_last(), requests);
        lemma_move_is_serial(
            Race::start(store).raced(moves.drop_last(), requests),
            moves.last(),
            requests,
        );
    }
}

/// The requests whose commits landed in the schedule `moves`, in the order in
/// which they landed, each with the time on its caller's clock.
pub open spec fn landed(store: StoreState, moves: Seq<Move>, requests: Requests) -> Seq<
    (MessageView, i64),
>
    decreases moves.len(),
{
    if moves.len() == 0 {
        Seq::empty()
    } else {
        let earlier = Race::start(store).raced(moves.drop_last(), requests);
        let before = landed(store, moves.drop_last(), requests);
        if earlier.lands(moves.last(), requests) {
            before.push((MessageView::carrying(requests[moves.last().caller]), moves.last().now))
        } else {
            before
        }
    }
}

/// Every schedule is serial in effect. Whatever requests the callers serve and
/// however their loads and commits interleave, the store ends as if the
/// requests whose commits landed had been served one after the other, alone, in
/// the order in which they landed.
pub proof fn law_races_are_serial(store: StoreState, moves: Seq<Move>, requests: Requests)
    ensures
        Race::start(store).raced(moves, requests).store == served(
            store,
            landed(store, moves, requests),
        ),
    decreases moves.len(),
{
    if moves.len() > 0 {
        let earlier = Race::start(store).raced(moves.drop_last(), requests);
        let before = landed(store, moves.drop_last(), requests);
        let m = moves.last();
        law_races_are_serial(store, moves.drop_last(), requests);
        law_races_stay_sound(store, moves.drop_last(), requests);
        lemma_move_is_serial(earlier, m, requests);
        if earlier.lands(m, requests) {
            let entry = (MessageView::carrying(requests[m.caller]), m.now);
            assert(before.push(entry).drop_last() =~= before);
        }
    }
}

/// Every caller's request adds one to the credit of `user_id`.
pub open spec fn all_increment(requests: Requests, user_id: Seq<char>) -> bool {
    forall|c: int| #[trigger]
        requests.contains_key(c) ==> (requests[c] matches MessageDataView::AlterUserCreditRequest(
            d,
        ) && d.user_id == user_id && d.credit == 1)
}

/// No update is lost. Let any number of callers each add one to the credit of
/// the same account, their loads and commits interleaved in any order: the
/// credit then stands at what it was plus the number of callers whose commit
/// took effect. From a credit of zero, `n` callers that are all done leave
/// exactly `n`.
pub proof fn law_no_lost_update(
    store: StoreState,
    user_id: Seq<char>,
    requests: Requests,
    moves: Seq<Move>,
)
    requires
        all_increment(requests, user_id),
    ensures
        ({
            let key = account_key_text(user_id);
            let end = Race::start(store).raced(moves, requests);
            &&& end.done.finite()
            &&& end.done.subset_of(requests.dom())
            &&& match lookup(store, key) {
                Some(v) => lookup(end.store, key) matches Some(w) && w.account.credit
                    == v.account.credit + end.done.len(),
                None => lookup(end.store, key) is None && end.done.len() == 0,
            }
        }),
    decreases moves.len(),
{
    let key = account_key_text(user_id);
    if moves.len() > 0 {
        let earlier = Race::start(store).raced(moves.drop_last(), requests);
        let m = moves.last();
        law_no_lost_update(store, user_id, requests, moves.drop_last());
        law_races_stay_sound(store, moves.drop_last(), requests);
        lemma_move_is_serial(earlier, m, requests);
        if earlier.lands(m, requests) {
            let plan = planned(requests[m.caller], earlier.held[m.caller], m.now);
            assert(earlier.caller_is_sound(m.caller, requests));
            assert(snapshot_is_sound(earlier.held[m.caller][0], lookup(earlier.store, key)));
            lemma_apply_one(earlier.store, plan.writes[0]);
        }
    }
}

} // verus!
