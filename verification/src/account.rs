use vstd::prelude::*;
use crate::clock::now_ns;
use crate::errors::ServerError;

verus! {

/// What an account is, as a plain value: the model that contracts speak of.
pub struct AccountView {
    pub id: u64,
    pub balance: u64,
    pub reserved: bool,
    pub last_updated_ns: u128,
}

impl AccountView {
    /// A new account: not reserved, last updated at `ts`.
    pub open spec fn created(id: u64, balance: u64, ts: u128) -> AccountView {
        AccountView { id, balance, reserved: false, last_updated_ns: ts }
    }

    /// A mutation stamped with `operation_time` is accepted when it carries
    /// no timestamp or one strictly after the last update.
    pub open spec fn accepts(self, operation_time: Option<u128>) -> bool {
        match operation_time {
            Some(ts) => self.last_updated_ns < ts,
            None => true,
        }
    }

    /// The timestamp after an accepted mutation.
    pub open spec fn stamped(self, operation_time: Option<u128>) -> u128 {
        match operation_time {
            Some(ts) => ts,
            None => self.last_updated_ns,
        }
    }

    /// The account after an accepted credit.
    pub open spec fn credited(self, points: u64, operation_time: Option<u128>) -> AccountView {
        AccountView {
            balance: (self.balance + points) as u64,
            last_updated_ns: self.stamped(operation_time),
            ..self
        }
    }

    /// The account after an accepted spend: the reservation is gone.
    pub open spec fn spent(self, points: u64, operation_time: Option<u128>) -> AccountView {
        AccountView {
            balance: (self.balance - points) as u64,
            reserved: false,
            last_updated_ns: self.stamped(operation_time),
            ..self
        }
    }

    /// The account after taking over a balance seen elsewhere, last writer
    /// wins: an update that is not strictly later changes nothing.
    pub open spec fn updated(self, points: u64, ts: u128) -> AccountView {
        if self.last_updated_ns < ts {
            AccountView { balance: points, last_updated_ns: ts, ..self }
        } else {
            self
        }
    }

    pub open spec fn with_reserved(self, reserved: bool) -> AccountView {
        AccountView { reserved, ..self }
    }
}

/// The points of one customer.
#[derive(Debug, Clone, Copy)]
pub struct Account {
    pub id: u64,
    points: u64,
    last_updated_on: u128,
    is_reserved: bool,
}

impl View for Account {
    type V = AccountView;

    closed spec fn view(&self) -> AccountView {
        AccountView {
            id: self.id,
            balance: self.points,
            reserved: self.is_reserved,
            last_updated_ns: self.last_updated_on,
        }
    }
}

impl Account {
    /// A new account, last updated now. `None` where the clock cannot tell
    /// the time; the timestamp is whatever the clock gave.
    pub fn new(id: u64, points: u64) -> (account: Option<Account>)
        ensures
            account matches Some(a) ==> a@ == AccountView::created(id, points, a@.last_updated_ns),
    {
        Account::new_at_reading(id, points, now_ns())
    }

    /// A new account with a given time of last update.
    pub fn new_from_update(id: u64, points: u64, last_updated_on: u128) -> (account: Account)
        ensures
            account@ == AccountView::created(id, points, last_updated_on),
    {
        Account { id, points, last_updated_on, is_reserved: false }
    }

    /// A new account for a given reading of the clock: last updated at the
    /// time read, and none where the clock could not tell the time.
    pub fn new_at_reading(id: u64, points: u64, reading: Option<u128>) -> (account: Option<Account>)
        ensures
            reading is None ==> account is None,
            reading matches Some(now) ==> account is Some && account->0@ == AccountView::created(
                id,
                points,
                now,
            ),
    {
        match reading {
            Some(now) => Some(Account::new_from_update(id, points, now)),
            None => None,
        }
    }

    pub fn points(&self) -> (points: u64)
        ensures
            points == self@.balance,
    {
        self.points
    }

    pub fn last_updated_on(&self) -> (ts: u128)
        ensures
            ts == self@.last_updated_ns,
    {
        self.last_updated_on
    }

    pub fn is_reserved(&mut self) -> (reserved: bool)
        ensures
            reserved == old(self)@.reserved,
            *final(self) == *old(self),
    {
        self.is_reserved
    }

    /// Adds points. With a timestamp, the credit is applied only where the
    /// timestamp lies strictly after the last update, and becomes the new
    /// time of last update; otherwise nothing changes and the operation is
    /// reported as outdated. Without one, the points are added and the time
    /// of last update stays.
    pub fn add_points(&mut self, points: u64, operation_time: Option<u128>) -> (result: Result<
        (),
        ServerError,
    >)
        requires
            old(self)@.accepts(operation_time) ==> old(self)@.balance + points <= u64::MAX,
        ensures
            old(self)@.accepts(operation_time) ==> result is Ok && final(self)@ == old(self)@.credited(
                points,
                operation_time,
            ),
            !old(self)@.accepts(operation_time) ==> result == Err::<(), ServerError>(
                ServerError::OperationIsOutdated,
            ) && final(self)@ == old(self)@,
    {
        match operation_time {
            Some(timestamp) => {
                if self.last_updated_on < timestamp {
                    self.points = self.points + points;
                    self.last_updated_on = timestamp;
                    Ok(())
                } else {
                    Err(ServerError::OperationIsOutdated)
                }
            },
            None => {
                self.points = self.points + points;
                Ok(())
            },
        }
    }

    /// Takes points away and clears the reservation. More points than the
    /// account holds are refused first; then, with a timestamp, one that is
    /// not strictly after the last update. A refusal changes nothing.
    pub fn substract_points(&mut self, points: u64, operation_time: Option<u128>) -> (result:
        Result<(), ServerError>)
        ensures
            points > old(self)@.balance ==> result == Err::<(), ServerError>(
                ServerError::NotEnoughPointsInAccount,
            ) && final(self)@ == old(self)@,
            points <= old(self)@.balance && !old(self)@.accepts(operation_time) ==> result == Err::<
                (),
                ServerError,
            >(ServerError::OperationIsOutdated) && final(self)@ == old(self)@,
            points <= old(self)@.balance && old(self)@.accepts(operation_time) ==> result is Ok
                && final(self)@ == old(self)@.spent(points, operation_time),
    {
        if points > self.points {
            return Err(ServerError::NotEnoughPointsInAccount);
        }
        match operation_time {
            Some(timestamp) => {
                if self.last_updated_on < timestamp {
                    self.points = self.points - points;
                    self.last_updated_on = timestamp;
                    self.is_reserved = false;
                    return Ok(());
                }
                Err(ServerError::OperationIsOutdated)
            },
            None => {
                self.points = self.points - points;
                self.is_reserved = false;
                Ok(())
            },
        }
    }

    /// Takes over a balance and its timestamp, last writer wins: an update
    /// that is not strictly later than the last one changes nothing.
    pub fn update(&mut self, points: u64, operation_time: u128)
        ensures
            final(self)@ == old(self)@.updated(points, operation_time),
    {
        if self.last_updated_on < operation_time {
            self.points = points;
            self.last_updated_on = operation_time;
        }
    }

    /// Clears the reservation, if there is one.
    pub fn cancel_reservation(&mut self)
        ensures
            final(self)@ == old(self)@.with_reserved(false),
    {
        self.is_reserved = false;
    }

    /// Reserves the account for one spend. An account that is reserved
    /// already is refused and stays as it is.
    pub fn reserve(&mut self) -> (result: Result<(), ServerError>)
        ensures
            final(self)@ == old(self)@.with_reserved(true),
            old(self)@.reserved ==> result == Err::<(), ServerError>(ServerError::AccountIsReserved),
            !old(self)@.reserved ==> result is Ok,
    {
        if self.is_reserved {
            return Err(ServerError::AccountIsReserved);
        }
        self.is_reserved = true;
        Ok(())
    }
}

} // verus!
