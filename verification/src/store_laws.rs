use vstd::prelude::*;
use crate::accounts_manager::cancel_reserve;
use crate::accounts_manager::commit_spend;
use crate::accounts_manager::credit;
use crate::accounts_manager::has_room;
use crate::accounts_manager::is_latest_update;
use crate::accounts_manager::is_snapshot_since;
use crate::accounts_manager::replay;
use crate::accounts_manager::replay_all;
use crate::accounts_manager::reserve;
use crate::accounts_manager::snapshot_of;
use crate::accounts_manager::take_over;
use crate::accounts_manager::take_over_all;
use crate::accounts_manager::timestamps_never_go_back;
use crate::accounts_manager::without_reservations;
use crate::accounts_manager::StoreView;
use crate::local_connection_messages::MessageType;
use crate::server_messages::AccountAction;
use crate::server_messages::UpdatedAccount;

verus! {

/// The balance of an account: 0 for an account that is not there.
pub open spec fn balance_of(store: StoreView, id: u64) -> nat {
    if store.contains_key(id) {
        store[id].balance as nat
    } else {
        0
    }
}

/// The points that replaying `action` on `store` adds to account `id`: the
/// points of a credit for it that the store takes, 0 otherwise.
pub open spec fn credit_taken(store: StoreView, action: AccountAction, id: u64) -> nat {
    if action.message_type == MessageType::AddPoints && action.account_id == id && has_room(
        store,
        id,
        action.points,
    ) && (store.contains_key(id) ==> store[id].last_updated_ns < action.last_updated_on) {
        action.points as nat
    } else {
        0
    }
}

/// The points that replaying `action` on `store` takes from account `id`:
/// the points of a committed spend on it that the store takes, 0 otherwise.
pub open spec fn spend_taken(store: StoreView, action: AccountAction, id: u64) -> nat {
    if action.message_type == MessageType::TakePoints && action.account_id == id
        && store.contains_key(id) && action.points <= store[id].balance
        && store[id].last_updated_ns < action.last_updated_on {
        action.points as nat
    } else {
        0
    }
}

/// All points that replaying `actions` in order adds to account `id`.
pub open spec fn credits_taken(store: StoreView, actions: Seq<AccountAction>, id: u64) -> nat
    decreases actions.len(),
{
    if actions.len() == 0 {
        0
    } else {
        credits_taken(store, actions.drop_last(), id) + credit_taken(
            replay_all(store, actions.drop_last()),
            actions.last(),
            id,
        )
    }
}

/// All points that replaying `actions` in order takes from account `id`.
pub open spec fn spends_taken(store: StoreView, actions: Seq<AccountAction>, id: u64) -> nat
    decreases actions.len(),
{
    if actions.len() == 0 {
        0
    } else {
        spends_taken(store, actions.drop_last(), id) + spend_taken(
            replay_all(store, actions.drop_last()),
            actions.last(),
            id,
        )
    }
}

/// Replaying one action moves the balance of an account by what the store
/// takes of it, and by nothing else.
pub proof fn lemma_replay_balance(store: StoreView, action: AccountAction, id: u64)
    ensures
        balance_of(replay(store, action), id) + spend_taken(store, action, id) == balance_of(
            store,
            id,
        ) + credit_taken(store, action, id),
{
}

/// Points are conserved: after any list of actions is replayed, the balance
/// of an account is what it was, plus the credits taken, minus the spends
/// taken.
pub proof fn lemma_conservation(store: StoreView, actions: Seq<AccountAction>, id: u64)
    ensures
        balance_of(replay_all(store, actions), id) + spends_taken(store, actions, id) == balance_of(
            store,
            id,
        ) + credits_taken(store, actions, id),
    decreases actions.len(),
{
    if actions.len() > 0 {
        lemma_conservation(store, actions.drop_last(), id);
        lemma_replay_balance(replay_all(store, actions.drop_last()), actions.last(), id);
    }
}

/// No points are spent twice: on a store that started empty, the spends
/// taken from an account never exceed the credits taken for it.
pub proof fn lemma_no_double_spend(actions: Seq<AccountAction>, id: u64)
    ensures
        spends_taken(Map::empty(), actions, id) <= credits_taken(Map::empty(), actions, id),
{
    lemma_conservation(Map::empty(), actions, id);
}

/// A credit never takes the time of last update of an account back.
pub proof fn lemma_credit_keeps_order(store: StoreView, id: u64, points: u64, ts: u128)
    ensures
        timestamps_never_go_back(store, credit(store, id, points, ts)),
{
}

/// A committed spend never takes the time of last update of an account
/// back.
pub proof fn lemma_spend_keeps_order(
    store: StoreView,
    id: u64,
    points: u64,
    operation_time: Option<u128>,
)
    ensures
        timestamps_never_go_back(store, commit_spend(store, id, points, operation_time)),
{
}

/// Taking over the state of an account never takes its time of last update
/// back.
pub proof fn lemma_take_over_keeps_order(store: StoreView, id: u64, points: u64, ts: u128)
    ensures
        timestamps_never_go_back(store, take_over(store, id, points, ts)),
{
}

/// Reservations leave the time of last update of every account.
pub proof fn lemma_reservations_keep_order(store: StoreView, id: u64, points: u64)
    ensures
        timestamps_never_go_back(store, reserve(store, id, points)),
        timestamps_never_go_back(store, cancel_reserve(store, id)),
        timestamps_never_go_back(store, without_reservations(store)),
{
}

/// Replaying an action never takes the time of last update of an account
/// back.
pub proof fn lemma_replay_keeps_order(store: StoreView, action: AccountAction)
    ensures
        timestamps_never_go_back(store, replay(store, action)),
{
}

/// Replaying a list of actions never takes the time of last update of an
/// account back.
pub proof fn lemma_replay_all_keeps_order(store: StoreView, actions: Seq<AccountAction>)
    ensures
        timestamps_never_go_back(store, replay_all(store, actions)),
    decreases actions.len(),
{
    if actions.len() > 0 {
        lemma_replay_all_keeps_order(store, actions.drop_last());
        lemma_replay_keeps_order(replay_all(store, actions.drop_last()), actions.last());
    }
}

/// Taking over a list of account states never takes the time of last update
/// of an account back.
pub proof fn lemma_take_over_all_keeps_order(store: StoreView, changes: Seq<UpdatedAccount>)
    ensures
        timestamps_never_go_back(store, take_over_all(store, changes)),
    decreases changes.len(),
{
    if changes.len() > 0 {
        lemma_take_over_all_keeps_order(store, changes.drop_last());
    }
}

/// Replaying an action twice leaves the store as replaying it once.
pub proof fn lemma_replay_twice(store: StoreView, action: AccountAction)
    ensures
        replay(replay(store, action), action) == replay(store, action),
{
    assert(replay(replay(store, action), action) =~= replay(store, action));
}

/// Taking over account states leaves the accounts that none of them names.
pub proof fn lemma_take_over_all_elsewhere(store: StoreView, changes: Seq<UpdatedAccount>, id: u64)
    requires
        forall|i: int| 0 <= i < changes.len() ==> (#[trigger] changes[i]).id != id,
    ensures
        take_over_all(store, changes).contains_key(id) == store.contains_key(id),
        store.contains_key(id) ==> take_over_all(store, changes)[id] == store[id],
    decreases changes.len(),
{
    if changes.len() > 0 {
        let rest = changes.drop_last();
        assert forall|i: int| 0 <= i < rest.len() implies (#[trigger] rest[i]).id != id by {
            assert(rest[i] == changes[i]);
        }
        lemma_take_over_all_elsewhere(store, rest, id);
        assert(changes[changes.len() - 1].id != id);
    }
}

/// A store whose updates are no later than `ts` takes over every account
/// state that is later than `ts`, where no two of the states are of the same
/// account: after that it holds the account with the balance and the time
/// of last update of the state.
pub proof fn lemma_take_over_all_entry(
    store: StoreView,
    changes: Seq<UpdatedAccount>,
    ts: u128,
    change: UpdatedAccount,
)
    requires
        forall|id: u64| #[trigger] store.contains_key(id) ==> store[id].last_updated_ns <= ts,
        forall|i: int| 0 <= i < changes.len() ==> (#[trigger] changes[i]).last_updated_on > ts,
        forall|i: int, j: int|
            0 <= i < j < changes.len() ==> (#[trigger] changes[i]).id != (#[trigger] changes[j]).id,
        changes.contains(change),
    ensures
        take_over_all(store, changes).contains_key(change.id),
        take_over_all(store, changes)[change.id].balance == change.amount,
        take_over_all(store, changes)[change.id].last_updated_ns == change.last_updated_on,
    decreases changes.len(),
{
    let rest = changes.drop_last();
    let last = changes.last();
    let at = choose|i: int| 0 <= i < changes.len() && changes[i] == change;
    assert forall|i: int| 0 <= i < rest.len() implies (#[trigger] rest[i]).last_updated_on
        > ts by {
        assert(rest[i] == changes[i]);
    }
    assert forall|i: int, j: int| 0 <= i < j < rest.len() implies (#[trigger] rest[i]).id != (
    #[trigger] rest[j]).id by {
        assert(rest[i] == changes[i]);
        assert(rest[j] == changes[j]);
    }
    if at == changes.len() - 1 {
        assert forall|i: int| 0 <= i < rest.len() implies (#[trigger] rest[i]).id != change.id by {
            assert(rest[i] == changes[i]);
            assert(changes[i].id != changes[changes.len() - 1].id);
        }
        lemma_take_over_all_elsewhere(store, rest, change.id);
        assert(changes[changes.len() - 1].last_updated_on > ts);
    } else {
        assert(rest[at] == change);
        lemma_take_over_all_entry(store, rest, ts, change);
        assert(changes[at].id != changes[changes.len() - 1].id);
    }
}

/// A site that joins catches up. Let `ts` be the latest update that the
/// joining site knows of, and `changes` what a site of the ring names as
/// updated after `ts`. Once the joining site has taken the changes over, it
/// holds every account that the other site updated after `ts`, with the same
/// balance and the same time of last update.
pub proof fn lemma_join_catches_up(
    joiner: StoreView,
    ring: StoreView,
    ts: u128,
    changes: Seq<UpdatedAccount>,
    id: u64,
)
    requires
        is_latest_update(joiner, ts),
        is_snapshot_since(ring, ts, changes),
        ring.contains_key(id),
        ring[id].id == id,
        ring[id].last_updated_ns > ts,
    ensures
        take_over_all(joiner, changes).contains_key(id),
        take_over_all(joiner, changes)[id].balance == ring[id].balance,
        take_over_all(joiner, changes)[id].last_updated_ns == ring[id].last_updated_ns,
{
    lemma_take_over_all_entry(joiner, changes, ts, snapshot_of(ring[id]));
}

} // verus!
