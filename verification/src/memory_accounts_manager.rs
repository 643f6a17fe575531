use vstd::prelude::*;
use std::collections::HashMap;
use crate::account::Account;
use crate::account::AccountView;
use crate::accounts_manager::commit_spend;
use crate::accounts_manager::has_room;
use crate::accounts_manager::reserve;
use crate::accounts_manager::snapshot_of;
use crate::accounts_manager::take_over;
use crate::accounts_manager::without_reservations;
use crate::accounts_manager::AccountsManager;
use crate::accounts_manager::StoreView;
use crate::errors::ServerError;
use crate::keys::keys_of;
use crate::server_messages::UpdatedAccount;

verus! {

/// An account as the store holds it under `id`.
pub open spec fn keyed(id: u64, account: AccountView) -> AccountView {
    AccountView { id, ..account }
}

/// An account store that lives in memory.
#[derive(Debug)]
pub struct MemoryAccountsManager {
    accounts: HashMap<u64, Account>,
}

impl View for MemoryAccountsManager {
    type V = StoreView;

    closed spec fn view(&self) -> StoreView {
        Map::new(
            |id: u64| self.accounts@.contains_key(id),
            |id: u64| keyed(id, self.accounts@[id]@),
        )
    }
}

impl MemoryAccountsManager {
    /// An empty store.
    pub fn new() -> (store: MemoryAccountsManager)
        ensures
            store@ == Map::<u64, AccountView>::empty(),
    {
        let store = MemoryAccountsManager { accounts: HashMap::new() };
        assert(store@ =~= Map::<u64, AccountView>::empty());
        store
    }

    /// A copy of the account with the given id, if the store holds it.
    pub fn account(&self, account_id: u64) -> (account: Option<Account>)
        ensures
            self@.contains_key(account_id) ==> account is Some && account->0@ == self@[account_id],
            !self@.contains_key(account_id) ==> account is None,
    {
        match self.find(account_id) {
            Some(found) => {
                let mut found = found;
                let mut copy = Account::new_from_update(
                    account_id,
                    found.points(),
                    found.last_updated_on(),
                );
                if found.is_reserved() {
                    let _ = copy.reserve();
                }
                Some(copy)
            },
            None => None,
        }
    }

    /// Whether a credit of `points` fits the balance of the account: true
    /// of an absent account.
    pub fn has_room_for(&self, account_id: u64, points: u64) -> (fits: bool)
        ensures
            fits == has_room(self@, account_id, points),
    {
        broadcast use vstd::std_specs::hash::group_hash_axioms;

        match self.accounts.get(&account_id) {
            Some(found) => found.points() <= u64::MAX - points,
            None => true,
        }
    }

    /// The ids of all accounts, each once, in no particular order.
    fn ids(&self) -> (ids: Vec<u64>)
        ensures
            ids@.no_duplicates(),
            forall|id: u64| ids@.contains(id) <==> self@.contains_key(id),
    {
        broadcast use vstd::std_specs::hash::group_hash_axioms;

        keys_of(&self.accounts)
    }

    /// Puts an account under its id.
    fn put(&mut self, account_id: u64, account: Account)
        ensures
            final(self)@ == old(self)@.insert(account_id, keyed(account_id, account@)),
    {
        broadcast use vstd::std_specs::hash::group_hash_axioms;

        self.accounts.insert(account_id, account);
        assert(self@ =~= old(self)@.insert(account_id, keyed(account_id, account@)));
    }

    /// The account under an id, as it is held.
    fn find(&self, account_id: u64) -> (account: Option<Account>)
        ensures
            self@.contains_key(account_id) ==> account is Some && keyed(account_id, account->0@)
                == self@[account_id],
            !self@.contains_key(account_id) ==> account is None,
    {
        broadcast use vstd::std_specs::hash::group_hash_axioms;

        match self.accounts.get(&account_id) {
            Some(found) => Some(*found),
            None => None,
        }
    }
}

impl AccountsManager for MemoryAccountsManager {
    fn add_points(&mut self, account_id: u64, points: u64, operation_time: Option<u128>) -> (result:
        Result<(), ServerError>) {
        match self.find(account_id) {
            None => {
                let created = match operation_time {
                    Some(ts) => Some(Account::new_from_update(account_id, points, ts)),
                    None => Account::new(account_id, points),
                };
                if let Some(account) = created {
                    self.put(account_id, account);
                    assert(keyed(account_id, account@) == AccountView::created(
                        account_id,
                        points,
                        account@.last_updated_ns,
                    ));
                }
            },
            Some(found) => {
                let mut account = found;
                let _ = account.add_points(points, operation_time);
                self.put(account_id, account);
                proof {
                    if !old(self)@[account_id].accepts(operation_time) {
                        assert(self@ =~= old(self)@);
                    }
                }
            },
        }
        Ok(())
    }

    fn substract_points(
        &mut self,
        account_id: u64,
        points: u64,
        operation_time: Option<u128>,
    ) -> (result: Result<(), ServerError>) {
        match self.find(account_id) {
            Some(found) => {
                let mut account = found;
                let outcome = account.substract_points(points, operation_time);
                self.put(account_id, account);
                assert(self@ =~= commit_spend(old(self)@, account_id, points, operation_time));
                match outcome {
                    Err(ServerError::NotEnoughPointsInAccount) => Err(
                        ServerError::NotEnoughPointsInAccount,
                    ),
                    _ => Ok(()),
                }
            },
            None => Err(ServerError::AccountNotFound),
        }
    }

    fn update(&mut self, account_id: u64, points: u64, operation_time: u128) {
        match self.find(account_id) {
            Some(found) => {
                let mut account = found;
                account.update(points, operation_time);
                self.put(account_id, account);
            },
            None => {
                self.put(account_id, Account::new_from_update(account_id, points, operation_time));
            },
        }
        assert(self@ =~= take_over(old(self)@, account_id, points, operation_time));
    }

    fn request_points(&mut self, account_id: u64, points: u64) -> (result: Result<(), ServerError>) {
        match self.find(account_id) {
            Some(found) => {
                let mut account = found;
                if account.points() >= points {
                    let outcome = account.reserve();
                    self.put(account_id, account);
                    assert(self@ =~= reserve(old(self)@, account_id, points));
                    return match outcome {
                        Ok(()) => Ok(()),
                        Err(_) => Err(ServerError::AccountIsReserved),
                    };
                }
                Err(ServerError::NotEnoughPointsInAccount)
            },
            None => Err(ServerError::AccountNotFound),
        }
    }

    fn cancel_requested_points(&mut self, account_id: u64) -> (result: Result<(), ServerError>) {
        match self.find(account_id) {
            Some(found) => {
                let mut account = found;
                account.cancel_reservation();
                self.put(account_id, account);
                Ok(())
            },
            None => Err(ServerError::AccountNotFound),
        }
    }

    fn get_most_recent_update(&self) -> (latest: u128) {
        let ids = self.ids();
        let mut latest: u128 = 0;
        let mut i: usize = 0;
        while i < ids.len()
            invariant
                i <= ids.len(),
                forall|id: u64| ids@.contains(id) <==> self@.contains_key(id),
                forall|j: int| 0 <= j < i ==> self@[#[trigger] ids@[j]].last_updated_ns <= latest,
                latest == 0 || exists|id: u64| #[trigger]
                    self@.contains_key(id) && self@[id].last_updated_ns == latest,
            decreases ids.len() - i,
        {
            assert(ids@.contains(ids@[i as int]));
            if let Some(account) = self.find(ids[i]) {
                let updated = account.last_updated_on();
                if latest < updated {
                    latest = updated;
                }
            }
            i = i + 1;
        }
        proof {
            assert forall|id: u64| #[trigger] self@.contains_key(id) implies self@[id].last_updated_ns
                <= latest by {
                assert(ids@.contains(id));
                let j = choose|j: int| 0 <= j < ids@.len() && ids@[j] == id;
                assert(self@[ids@[j]].last_updated_ns <= latest);
            }
        }
        latest
    }

    fn get_accounts_updated_after(&self, timestamp: u128) -> (changes: Vec<UpdatedAccount>) {
        let ids = self.ids();
        let mut changes: Vec<UpdatedAccount> = Vec::new();
        let mut i: usize = 0;
        while i < ids.len()
            invariant
                i <= ids.len(),
                ids@.no_duplicates(),
                forall|id: u64| ids@.contains(id) <==> self@.contains_key(id),
                forall|k: int|
                    0 <= k < changes@.len() ==> {
                        &&& self@.contains_key((#[trigger] changes@[k]).id)
                        &&& self@[changes@[k].id].last_updated_ns > timestamp
                        &&& changes@[k] == snapshot_of(self@[changes@[k].id])
                        &&& exists|j: int| 0 <= j < i && ids@[j] == changes@[k].id
                    },
                forall|k: int, l: int|
                    0 <= k < l < changes@.len() ==> (#[trigger] changes@[k]).id != (
                    #[trigger] changes@[l]).id,
                forall|j: int|
                    0 <= j < i && self@[#[trigger] ids@[j]].last_updated_ns > timestamp
                        ==> changes@.contains(snapshot_of(self@[ids@[j]])),
            decreases ids.len() - i,
        {
            let id = ids[i];
            assert(ids@.contains(ids@[i as int]));
            if let Some(account) = self.find(id) {
                let last_updated_on = account.last_updated_on();
                if timestamp < last_updated_on {
                    let ghost before = changes@;
                    let change = UpdatedAccount { id, amount: account.points(), last_updated_on };
                    changes.push(change);
                    assert(change == snapshot_of(self@[id]));
                    assert(changes@[before.len() as int] == change);
                    assert forall|k: int| 0 <= k < before.len() implies (#[trigger] changes@[k]).id
                        != change.id by {
                        assert(changes@[k] == before[k]);
                        let j = choose|j: int| 0 <= j < i && ids@[j] == before[k].id;
                        assert(ids@[j] != ids@[i as int]);
                    }
                    assert forall|j: int|
                        0 <= j < i + 1 && self@[#[trigger] ids@[j]].last_updated_ns
                            > timestamp implies changes@.contains(snapshot_of(self@[ids@[j]])) by {
                        if j < i {
                            let k = choose|k: int|
                                0 <= k < before.len() && before[k] == snapshot_of(self@[ids@[j]]);
                            assert(changes@[k] == snapshot_of(self@[ids@[j]]));
                        } else {
                            assert(changes@[before.len() as int] == snapshot_of(self@[ids@[j]]));
                        }
                    }
                }
            }
            i = i + 1;
        }
        proof {
            assert forall|id: u64| #[trigger]
                self@.contains_key(id) && self@[id].last_updated_ns > timestamp implies changes@.contains(
                snapshot_of(self@[id]),
            ) by {
                assert(ids@.contains(id));
                let j = choose|j: int| 0 <= j < ids@.len() && ids@[j] == id;
                assert(self@[ids@[j]].last_updated_ns > timestamp);
            }
        }
        changes
    }

    fn clear_reservations(&mut self) {
        let ids = self.ids();
        let mut i: usize = 0;
        while i < ids.len()
            invariant
                i <= ids.len(),
                ids@.no_duplicates(),
                forall|id: u64| ids@.contains(id) <==> old(self)@.contains_key(id),
                self@.dom() == old(self)@.dom(),
                forall|j: int|
                    0 <= j < i ==> self@[#[trigger] ids@[j]] == old(self)@[ids@[j]].with_reserved(
                        false,
                    ),
                forall|j: int| i <= j < ids@.len() ==> self@[#[trigger] ids@[j]] == old(self)@[ids@[j]],
            decreases ids.len() - i,
        {
            let id = ids[i];
            assert(ids@.contains(ids@[i as int]));
            let ghost before = self@;
            if let Some(found) = self.find(id) {
                let mut account = found;
                account.cancel_reservation();
                self.put(id, account);
            }
            assert(self@ =~= before.insert(id, before[id].with_reserved(false)));
            assert(self@.dom() =~= old(self)@.dom());
            i = i + 1;
        }
        proof {
            assert forall|id: u64| self@.contains_key(id) implies self@[id] == old(
                self,
            )@[id].with_reserved(false) by {
                assert(ids@.contains(id));
                let j = choose|j: int| 0 <= j < ids@.len() && ids@[j] == id;
                assert(self@[ids@[j]] == old(self)@[ids@[j]].with_reserved(false));
            }
            assert(self@ =~= without_reservations(old(self)@));
        }
    }
}

impl Default for MemoryAccountsManager {
    fn default() -> (store: MemoryAccountsManager)
        ensures
            store@ == Map::<u64, AccountView>::empty(),
    {
        MemoryAccountsManager::new()
    }
}

} // verus!
