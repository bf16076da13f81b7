//! What holds of the ledger across operations.
//!
//! Each proof function here states a property of the model in [`crate::model`],
//! the same values that the contracts of the executable operations speak of.

use vstd::prelude::*;
use crate::item::ItemView;
use crate::model::{swap_removed, Call, LedgerState, StoreState};
use crate::types::{AccountId, Error, Event, TypeID};

verus! {

/// Adding a record under an identifier that is not live keeps the indices
/// in agreement.
pub proof fn lemma_insert_consistent(s: StoreState, item: ItemView)
    requires
        s.consistent(),
        !s.is_live(item.id),
    ensures
        s.insert(item).consistent(),
{
    let t = s.insert(item);
    let ids = s.owned[item.owner];
    assert(!s.lists(item.owner, item.id));
    assert forall|owner: AccountId, id: TypeID| #[trigger]
        t.lists(owner, id) <==> t.is_live(id) && t.records[id].owner == owner by {
        assert(s.lists(owner, id) <==> s.is_live(id) && s.records[id].owner == owner);
        if owner == item.owner {
            if id == item.id {
                assert(ids.push(item.id)[ids.len() as int] == id);
            } else if s.lists(owner, id) {
                let k = choose|k: int| 0 <= k < ids.len() && ids[k] == id;
                assert(ids.push(item.id)[k] == id);
            }
        }
    }
    assert forall|owner: AccountId| (#[trigger] t.owned[owner]).no_duplicates() by {
        assert(s.owned[owner].no_duplicates());
    }
    assert forall|id: TypeID| #[trigger] t.is_live(id) implies t.records[id].id == id by {
        if id != item.id {
            assert(s.is_live(id));
        }
    }
}

/// Taking the element at `i` out of a sequence without duplicates leaves
/// exactly the other elements, still without duplicates.
pub proof fn lemma_swap_removed(ids: Seq<TypeID>, i: int)
    requires
        ids.no_duplicates(),
        0 <= i < ids.len(),
    ensures
        swap_removed(ids, i).len() == ids.len() - 1,
        swap_removed(ids, i).no_duplicates(),
        forall|id: TypeID|
            swap_removed(ids, i).contains(id) <==> ids.contains(id) && id != ids[i],
{
    let rest = swap_removed(ids, i);
    assert forall|id: TypeID| rest.contains(id) <==> ids.contains(id) && id != ids[i] by {
        if rest.contains(id) {
            let k = choose|k: int| 0 <= k < rest.len() && rest[k] == id;
            if k == i {
                assert(ids[ids.len() - 1] == id);
            } else {
                assert(ids[k] == id);
            }
        }
        if ids.contains(id) && id != ids[i] {
            let k = choose|k: int| 0 <= k < ids.len() && ids[k] == id;
            if k == ids.len() - 1 {
                assert(rest[i] == id);
            } else {
                assert(rest[k] == id);
            }
        }
    }
}

/// Removing an identifier that is listed under an account keeps the indices
/// in agreement.
pub proof fn lemma_remove_consistent(s: StoreState, owner: AccountId, id: TypeID)
    requires
        s.consistent(),
        s.lists(owner, id),
    ensures
        s.remove_by_owner(owner, id).consistent(),
{
    let t = s.remove_by_owner(owner, id);
    let ids = s.owned[owner];
    lemma_swap_removed(ids, ids.index_of(id));
    assert forall|o: AccountId, x: TypeID| #[trigger]
        t.lists(o, x) <==> t.is_live(x) && t.records[x].owner == o by {
        assert(s.lists(o, x) <==> s.is_live(x) && s.records[x].owner == o);
        assert(s.lists(o, id) <==> s.is_live(id) && s.records[id].owner == o);
    }
    assert forall|o: AccountId| (#[trigger] t.owned[o]).no_duplicates() by {
        assert(s.owned[o].no_duplicates());
    }
    assert forall|x: TypeID| #[trigger] t.is_live(x) implies t.records[x].id == x by {
        assert(s.is_live(x));
    }
}

/// A sequence of calls is run by running all but the last, then the last.
pub proof fn lemma_run_prefix(s: LedgerState, calls: Seq<Call>, i: int)
    requires
        0 <= i < calls.len(),
    ensures
        s.run(calls.take(i + 1)) == s.run(calls.take(i)).step(calls[i]),
{
    let prefix = calls.take(i + 1);
    assert(prefix.drop_last() =~= calls.take(i));
    assert(prefix.last() == calls[i]);
}

/// No call moves the allocator back, and a creation that succeeds returns
/// the identifier that was next and moves the allocator past it.
pub proof fn lemma_step_advances(s: LedgerState, call: Call)
    ensures
        s.next_id <= s.step(call).next_id,
        forall|id: TypeID|
            s.outcome(call) == Ok::<Event, Error>(Event::CreateSucceed(id)) ==> id == s.next_id
                && s.step(call).next_id == id + 1,
{
}

/// The allocator stands at least as far after a longer prefix of calls as
/// after a shorter one.
pub proof fn lemma_run_advances(s: LedgerState, calls: Seq<Call>, i: int, j: int)
    requires
        0 <= i <= j <= calls.len(),
    ensures
        s.run(calls.take(i)).next_id <= s.run(calls.take(j)).next_id,
    decreases j - i,
{
    if i < j {
        lemma_run_advances(s, calls, i, j - 1);
        lemma_run_prefix(s, calls, j - 1);
        lemma_step_advances(s.run(calls.take(j - 1)), calls[j - 1]);
    }
}

/// Uniqueness of identifiers: in any sequence of calls, from any ledger, two
/// creations that succeed return different identifiers; the later one
/// returns the larger.
pub proof fn law_created_identifiers_distinct(
    s: LedgerState,
    calls: Seq<Call>,
    i: int,
    j: int,
    a: TypeID,
    b: TypeID,
)
    requires
        0 <= i < j < calls.len(),
        s.run(calls.take(i)).outcome(calls[i]) == Ok::<Event, Error>(Event::CreateSucceed(a)),
        s.run(calls.take(j)).outcome(calls[j]) == Ok::<Event, Error>(Event::CreateSucceed(b)),
    ensures
        a < b,
{
    lemma_step_advances(s.run(calls.take(i)), calls[i]);
    lemma_run_prefix(s, calls, i);
    lemma_run_advances(s, calls, i + 1, j);
    lemma_step_advances(s.run(calls.take(j)), calls[j]);
}

/// What consistency of the indices means for a single identifier: a live
/// record is listed under its owner, once, and under no other account; an
/// identifier that is not live, because it was revoked or never assigned,
/// is listed nowhere.
pub proof fn law_index_consistency(s: StoreState, id: TypeID, owner: AccountId)
    requires
        s.consistent(),
    ensures
        s.is_live(id) ==> s.records[id].id == id,
        s.is_live(id) && owner == s.records[id].owner ==> s.lists(owner, id)
            && s.owned[owner].filter(|x: TypeID| x == id).len() == 1,
        s.is_live(id) && owner != s.records[id].owner ==> !s.lists(owner, id),
        !s.is_live(id) ==> !s.lists(owner, id),
{
    assert(s.lists(owner, id) <==> s.is_live(id) && s.records[id].owner == owner);
    if s.lists(owner, id) {
        lemma_occurs_once(s.owned[owner], id);
    }
}

/// An element of a sequence without duplicates occurs in it exactly once.
pub proof fn lemma_occurs_once(ids: Seq<TypeID>, id: TypeID)
    requires
        ids.no_duplicates(),
        ids.contains(id),
    ensures
        ids.filter(|x: TypeID| x == id).len() == 1,
    decreases ids.len(),
{
    reveal(Seq::filter);
    if ids.last() == id {
        lemma_absent_never_occurs(ids.drop_last(), id);
    } else {
        let k = choose|k: int| 0 <= k < ids.len() && ids[k] == id;
        assert(ids.drop_last()[k] == id);
        lemma_occurs_once(ids.drop_last(), id);
    }
}

/// A value that a sequence does not contain is not among what a search for
/// that value keeps.
pub proof fn lemma_absent_never_occurs(ids: Seq<TypeID>, id: TypeID)
    requires
        forall|k: int| 0 <= k < ids.len() ==> ids[k] != id,
    ensures
        ids.filter(|x: TypeID| x == id).len() == 0,
    decreases ids.len(),
{
    reveal(Seq::filter);
    if ids.len() > 0 {
        lemma_absent_never_occurs(ids.drop_last(), id);
    }
}

/// Every call keeps the indices in agreement.
pub proof fn law_step_keeps_consistent(s: LedgerState, call: Call)
    requires
        s.store.consistent(),
    ensures
        s.step(call).store.consistent(),
{
    match call {
        Call::Create(request) => {
            if s.next_id != TypeID::MAX && !s.store.is_live(s.next_id) {
                lemma_insert_consistent(s.store, request.record(s.next_id));
            }
        },
        Call::Revoke { caller, id } => {
            if s.store.lists(caller, id) {
                lemma_remove_consistent(s.store, caller, id);
            }
        },
    }
}

/// Index consistency: after any sequence of calls, from any ledger whose
/// indices agree, the indices agree.
pub proof fn law_run_keeps_consistent(s: LedgerState, calls: Seq<Call>)
    requires
        s.store.consistent(),
    ensures
        s.run(calls).store.consistent(),
    decreases calls.len(),
{
    if calls.len() > 0 {
        law_run_keeps_consistent(s, calls.drop_last());
        law_step_keeps_consistent(s.run(calls.drop_last()), calls.last());
    }
}

/// Every call keeps the store in step with the allocator.
pub proof fn law_step_keeps_in_step(s: LedgerState, call: Call)
    requires
        s.in_step(),
    ensures
        s.step(call).in_step(),
{
    let t = s.step(call);
    assert forall|id: TypeID| #[trigger] t.store.is_live(id) implies id < t.next_id by {
        if id != s.next_id {
            assert(s.store.is_live(id));
        }
    }
}

/// Whatever sequence of calls is made on a fresh ledger, its indices agree
/// and its store is in step with its allocator.
pub proof fn law_reachable_ledgers_sound(calls: Seq<Call>)
    ensures
        LedgerState::genesis().run(calls).store.consistent(),
        LedgerState::genesis().run(calls).in_step(),
    decreases calls.len(),
{
    if calls.len() > 0 {
        law_reachable_ledgers_sound(calls.drop_last());
        law_step_keeps_consistent(LedgerState::genesis().run(calls.drop_last()), calls.last());
        law_step_keeps_in_step(LedgerState::genesis().run(calls.drop_last()), calls.last());
    }
}

/// A ledger whose store is in step with its allocator never refuses a
/// creation for a duplicate identifier.
pub proof fn law_in_step_never_duplicate(s: LedgerState)
    requires
        s.in_step(),
    ensures
        s.create_outcome() != Err::<Event, Error>(Error::DuplicateIdentifier),
        s.next_id < TypeID::MAX ==> s.create_outcome() == Ok::<Event, Error>(
            Event::CreateSucceed(s.next_id),
        ),
{
    if s.store.is_live(s.next_id) {
        assert(s.next_id < s.next_id);
    }
}

/// A revocation that finds the identifier listed under the caller leaves it
/// live under no identifier and listed under no account.
pub proof fn law_revoked_is_gone(s: LedgerState, caller: AccountId, id: TypeID)
    requires
        s.store.consistent(),
        s.store.lists(caller, id),
    ensures
        !s.revoke(caller, id).store.is_live(id),
        forall|owner: AccountId| !s.revoke(caller, id).store.lists(owner, id),
{
    let t = s.revoke(caller, id);
    lemma_remove_consistent(s.store, caller, id);
    assert forall|owner: AccountId| !t.store.lists(owner, id) by {
        assert(t.store.lists(owner, id) <==> t.store.is_live(id) && t.store.records[id].owner
            == owner);
    }
}

/// An identifier that the allocator will never hand out, because it lies
/// behind the counter or is the one value that is never assigned, and that
/// is not live, stays that way through any sequence of calls.
pub proof fn lemma_spent_stays_dead(s: LedgerState, id: TypeID, calls: Seq<Call>)
    requires
        !s.store.is_live(id),
        id < s.next_id || id == TypeID::MAX,
    ensures
        !s.run(calls).store.is_live(id),
        id < s.run(calls).next_id || id == TypeID::MAX,
    decreases calls.len(),
{
    if calls.len() > 0 {
        lemma_spent_stays_dead(s, id, calls.drop_last());
        lemma_step_advances(s.run(calls.drop_last()), calls.last());
    }
}

/// No resurrection: once a revocation has removed a record, no sequence of
/// later calls makes its identifier live again.
///
/// This holds of every identifier that the allocator has left behind. An
/// identifier that still lies ahead of the counter, in a ledger whose
/// allocator lags behind its store, will be handed out in time, and is
/// therefore left out.
pub proof fn law_no_resurrection(s: LedgerState, caller: AccountId, id: TypeID, calls: Seq<Call>)
    requires
        s.store.lists(caller, id),
        id < s.next_id || id == TypeID::MAX,
    ensures
        !s.revoke(caller, id).run(calls).store.is_live(id),
{
    lemma_spent_stays_dead(s.revoke(caller, id), id, calls);
}

/// No resurrection, for every ledger that a fresh ledger can become: after
/// any history of calls, a revocation that removes a record removes its
/// identifier for good.
pub proof fn law_no_resurrection_since_genesis(
    history: Seq<Call>,
    caller: AccountId,
    id: TypeID,
    calls: Seq<Call>,
)
    requires
        LedgerState::genesis().run(history).store.lists(caller, id),
    ensures
        !LedgerState::genesis().run(history).revoke(caller, id).run(calls).store.is_live(id),
{
    let s = LedgerState::genesis().run(history);
    law_reachable_ledgers_sound(history);
    assert(s.store.lists(caller, id) <==> s.store.is_live(id) && s.store.records[id].owner
        == caller);
    assert(s.store.is_live(id));
    law_no_resurrection(s, caller, id, calls);
}

/// A revocation of an identifier that is not listed under the caller
/// changes nothing, and succeeds.
pub proof fn law_revoke_unlisted_changes_nothing(s: LedgerState, caller: AccountId, id: TypeID)
    requires
        !s.store.lists(caller, id),
    ensures
        s.revoke(caller, id) == s,
        s.outcome(Call::Revoke { caller, id }) == Ok::<Event, Error>(Event::RevokeSucceed(id)),
{
}

/// Revoking twice is revoking once: the second revocation of an identifier
/// by the same caller changes nothing, and succeeds.
pub proof fn law_second_revoke_changes_nothing(s: LedgerState, caller: AccountId, id: TypeID)
    requires
        s.store.consistent(),
    ensures
        !s.revoke(caller, id).store.lists(caller, id),
        s.revoke(caller, id).revoke(caller, id) == s.revoke(caller, id),
        s.revoke(caller, id).outcome(Call::Revoke { caller, id }) == Ok::<Event, Error>(
            Event::RevokeSucceed(id),
        ),
{
    if s.store.lists(caller, id) {
        law_revoked_is_gone(s, caller, id);
    }
}

} // verus!
