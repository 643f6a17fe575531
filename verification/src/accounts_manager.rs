use vstd::prelude::*;
use crate::account::AccountView;
use crate::errors::ServerError;
use crate::local_connection_messages::MessageType;
use crate::server_messages::AccountAction;
use crate::server_messages::UpdatedAccount;

verus! {

/// An account store as a plain value: account id to account.
pub type StoreView = Map<u64, AccountView>;

/// The balance of the account, if it is there, can take `points` more.
pub open spec fn has_room(store: StoreView, id: u64, points: u64) -> bool {
    store.contains_key(id) ==> store[id].balance + points <= u64::MAX
}

/// The store after a credit stamped `ts`. An absent account is created with
/// the points as its balance. A present one takes the credit only where `ts`
/// lies strictly after its last update.
pub open spec fn credit(store: StoreView, id: u64, points: u64, ts: u128) -> StoreView {
    if !store.contains_key(id) {
        store.insert(id, AccountView::created(id, points, ts))
    } else if store[id].last_updated_ns < ts {
        store.insert(id, store[id].credited(points, Some(ts)))
    } else {
        store
    }
}

/// How a reservation of `points` ends.
pub open spec fn reserve_result(store: StoreView, id: u64, points: u64) -> Result<(), ServerError> {
    if !store.contains_key(id) {
        Err(ServerError::AccountNotFound)
    } else if store[id].balance < points {
        Err(ServerError::NotEnoughPointsInAccount)
    } else if store[id].reserved {
        Err(ServerError::AccountIsReserved)
    } else {
        Ok(())
    }
}

/// The store after a reservation: the account is reserved where the
/// reservation is granted. Neither balance nor timestamp move.
pub open spec fn reserve(store: StoreView, id: u64, points: u64) -> StoreView {
    if reserve_result(store, id, points) is Ok {
        store.insert(id, store[id].with_reserved(true))
    } else {
        store
    }
}

/// The store after a reservation is cancelled.
pub open spec fn cancel_reserve(store: StoreView, id: u64) -> StoreView {
    if store.contains_key(id) {
        store.insert(id, store[id].with_reserved(false))
    } else {
        store
    }
}

/// How a committed spend ends: refused on an absent account and on one that
/// holds too few points; a stale timestamp is no failure.
pub open spec fn spend_result(store: StoreView, id: u64, points: u64) -> Result<(), ServerError> {
    if !store.contains_key(id) {
        Err(ServerError::AccountNotFound)
    } else if store[id].balance < points {
        Err(ServerError::NotEnoughPointsInAccount)
    } else {
        Ok(())
    }
}

/// The store after a committed spend. It is applied where the account is
/// there, holds the points, and the timestamp, if any, lies strictly after
/// its last update.
pub open spec fn commit_spend(
    store: StoreView,
    id: u64,
    points: u64,
    operation_time: Option<u128>,
) -> StoreView {
    if spend_result(store, id, points) is Ok && store[id].accepts(operation_time) {
        store.insert(id, store[id].spent(points, operation_time))
    } else {
        store
    }
}

/// The store after taking over the state of an account seen elsewhere, last
/// writer wins.
pub open spec fn take_over(store: StoreView, id: u64, points: u64, ts: u128) -> StoreView {
    if store.contains_key(id) {
        store.insert(id, store[id].updated(points, ts))
    } else {
        store.insert(id, AccountView::created(id, points, ts))
    }
}

/// The store with every reservation cleared.
pub open spec fn without_reservations(store: StoreView) -> StoreView {
    store.map_values(|account: AccountView| account.with_reserved(false))
}

/// `ts` is the latest time of update in the store: 0 for an empty store.
pub open spec fn is_latest_update(store: StoreView, ts: u128) -> bool {
    &&& forall|id: u64| #[trigger] store.contains_key(id) ==> store[id].last_updated_ns <= ts
    &&& ts == 0 || exists|id: u64| #[trigger] store.contains_key(id) && store[id].last_updated_ns == ts
}

/// The latest time of update in the store: see `is_latest_update`.
pub open spec fn latest_update(store: StoreView) -> u128 {
    choose|ts: u128| is_latest_update(store, ts)
}

/// A store has one latest time of update.
pub proof fn lemma_latest_update(store: StoreView, ts: u128)
    requires
        is_latest_update(store, ts),
    ensures
        latest_update(store) == ts,
{
    let other = latest_update(store);
    assert(is_latest_update(store, other));
    if ts != 0 {
        let id = choose|id: u64| #[trigger] store.contains_key(id) && store[id].last_updated_ns == ts;
        assert(store[id].last_updated_ns <= other);
    }
    if other != 0 {
        let id = choose|id: u64| #[trigger]
            store.contains_key(id) && store[id].last_updated_ns == other;
        assert(store[id].last_updated_ns <= ts);
    }
}

/// The state of an account as it is told to a joining site.
pub open spec fn snapshot_of(account: AccountView) -> UpdatedAccount {
    UpdatedAccount {
        id: account.id,
        amount: account.balance,
        last_updated_on: account.last_updated_ns,
    }
}

/// `changes` holds, once each and in any order, the accounts of the store
/// that were updated strictly after `ts`.
pub open spec fn is_snapshot_since(store: StoreView, ts: u128, changes: Seq<UpdatedAccount>) -> bool {
    &&& forall|i: int, j: int|
        0 <= i < j < changes.len() ==> (#[trigger] changes[i]).id != (#[trigger] changes[j]).id
    &&& forall|i: int|
        0 <= i < changes.len() ==> {
            &&& store.contains_key((#[trigger] changes[i]).id)
            &&& store[changes[i].id].last_updated_ns > ts
            &&& changes[i] == snapshot_of(store[changes[i].id])
        }
    &&& forall|id: u64|
        #[trigger] store.contains_key(id) && store[id].last_updated_ns > ts ==> changes.contains(
            snapshot_of(store[id]),
        )
}

/// The store after a mutation that came with a token is replayed. Credits
/// and committed spends carry their timestamp; other kinds change nothing,
/// nor does a credit that the balance has no room for.
pub open spec fn replay(store: StoreView, action: AccountAction) -> StoreView {
    match action.message_type {
        MessageType::AddPoints => {
            if has_room(store, action.account_id, action.points) {
                credit(store, action.account_id, action.points, action.last_updated_on)
            } else {
                store
            }
        },
        MessageType::TakePoints => commit_spend(
            store,
            action.account_id,
            action.points,
            Some(action.last_updated_on),
        ),
        _ => store,
    }
}

/// The store after a list of mutations is replayed in order.
pub open spec fn replay_all(store: StoreView, actions: Seq<AccountAction>) -> StoreView
    decreases actions.len(),
{
    if actions.len() == 0 {
        store
    } else {
        replay(replay_all(store, actions.drop_last()), actions.last())
    }
}

/// The store after the states of a list of accounts are taken over in order.
pub open spec fn take_over_all(store: StoreView, changes: Seq<UpdatedAccount>) -> StoreView
    decreases changes.len(),
{
    if changes.len() == 0 {
        store
    } else {
        let change = changes.last();
        take_over(
            take_over_all(store, changes.drop_last()),
            change.id,
            change.amount,
            change.last_updated_on,
        )
    }
}

/// Every account of `before` is still in `after`, with a time of last update
/// that is no earlier.
pub open spec fn timestamps_never_go_back(before: StoreView, after: StoreView) -> bool {
    forall|id: u64| #[trigger]
        before.contains_key(id) ==> after.contains_key(id) && before[id].last_updated_ns
            <= after[id].last_updated_ns
}

/// A store of point balances, one account per customer.
pub trait AccountsManager: View<V = StoreView> {
    /// Credits points. An absent account is created with the points as its
    /// balance, last updated at the given time, or now where none is given
    /// (no account is made where the clock cannot tell). On a present account
    /// a credit with a timestamp is applied where the timestamp lies strictly
    /// after the last update and is otherwise passed over in silence; one
    /// without a timestamp is added and leaves the time of last update.
    fn add_points(&mut self, account_id: u64, points: u64, operation_time: Option<u128>) -> (result:
        Result<(), ServerError>)
        requires
            has_room(old(self)@, account_id, points),
        ensures
            result is Ok,
            operation_time matches Some(ts) ==> final(self)@ == credit(
                old(self)@,
                account_id,
                points,
                ts,
            ),
            operation_time is None && old(self)@.contains_key(account_id) ==> final(self)@ == old(
                self,
            )@.insert(account_id, old(self)@[account_id].credited(points, None)),
            operation_time is None && !old(self)@.contains_key(account_id) ==> final(self)@ == old(
                self,
            )@ || exists|now: u128|
                final(self)@ == old(self)@.insert(
                    account_id,
                    #[trigger] AccountView::created(account_id, points, now),
                ),
    ;

    /// Commits a spend: takes the points and clears the reservation. A
    /// timestamp that does not lie strictly after the last update makes the
    /// call a success that changes nothing.
    fn substract_points(
        &mut self,
        account_id: u64,
        points: u64,
        operation_time: Option<u128>,
    ) -> (result: Result<(), ServerError>)
        ensures
            result == spend_result(old(self)@, account_id, points),
            final(self)@ == commit_spend(old(self)@, account_id, points, operation_time),
    ;

    /// Takes over the state of an account seen elsewhere, last writer wins.
    fn update(&mut self, account_id: u64, points: u64, operation_time: u128)
        ensures
            final(self)@ == take_over(old(self)@, account_id, points, operation_time),
    ;

    /// Reserves an account for a spend of `points`.
    fn request_points(&mut self, account_id: u64, points: u64) -> (result: Result<(), ServerError>)
        ensures
            result == reserve_result(old(self)@, account_id, points),
            final(self)@ == reserve(old(self)@, account_id, points),
    ;

    /// Cancels the reservation of an account.
    fn cancel_requested_points(&mut self, account_id: u64) -> (result: Result<(), ServerError>)
        ensures
            old(self)@.contains_key(account_id) ==> result is Ok,
            !old(self)@.contains_key(account_id) ==> result == Err::<(), ServerError>(
                ServerError::AccountNotFound,
            ),
            final(self)@ == cancel_reserve(old(self)@, account_id),
    ;

    /// The latest time of update among all accounts: 0 for an empty store.
    fn get_most_recent_update(&self) -> (latest: u128)
        ensures
            is_latest_update(self@, latest),
    ;

    /// The accounts updated strictly after `timestamp`, in any order.
    fn get_accounts_updated_after(&self, timestamp: u128) -> (changes: Vec<UpdatedAccount>)
        ensures
            is_snapshot_since(self@, timestamp, changes@),
    ;

    /// Clears the reservation of every account.
    fn clear_reservations(&mut self)
        ensures
            final(self)@ == without_reservations(old(self)@),
    ;
}

} // verus!
