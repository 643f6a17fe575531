use vstd::prelude::*;
use std::collections::HashMap;
use crate::accounts_manager::cancel_reserve;
use crate::accounts_manager::commit_spend;
use crate::accounts_manager::replay;
use crate::accounts_manager::reserve;
use crate::accounts_manager::reserve_result;
use crate::accounts_manager::spend_result;
use crate::accounts_manager::without_reservations;
use crate::accounts_manager::AccountsManager;
use crate::accounts_manager::StoreView;
use crate::clock::fresh_timestamp;
use crate::clock::next_timestamp;
use crate::clock::now_ns;
use crate::constants::COFFEE_RESULT_TIMEOUT_IN_MS;
use crate::constants::POST_INITIAL_TIMEOUT_COFFEE_RESULT_IN_MS;
use crate::errors::maker_error;
use crate::local_connection_messages::CoffeeMakerRequest;
use crate::local_connection_messages::CoffeeMakerResponse;
use crate::local_connection_messages::MessageType;
use crate::local_connection_messages::ResponseStatus;
use crate::memory_accounts_manager::MemoryAccountsManager;
use crate::orders_queue::coalesces;
use crate::orders_queue::requests_of;
use crate::orders_queue::OrdersQueue;
use crate::previous_connection::update_account_with_change;
use crate::server_messages::actions_of;
use crate::server_messages::append_action;
use crate::server_messages::fresh_message;
use crate::server_messages::recreate_token;
use crate::server_messages::token_view;
use crate::server_messages::AccountAction;
use crate::server_messages::MessageKind;
use crate::server_messages::MessageView;
use crate::server_messages::ServerMessage;
use crate::server_messages::TokenData;

verus! {

/// What the orders manager asks for next.
#[derive(Debug)]
pub enum ManagerAction {
    /// Wait for the token.
    AwaitToken,
    /// Wait this long for the outcome of a reserved spend.
    AwaitResult { timeout_ms: u64 },
    /// The token phase is over: hand the token to the sender of the
    /// outbound link, then wait for the token again.
    Forward(ServerMessage),
}

/// An action of the orders manager as a plain value.
pub enum ManagerActionView {
    AwaitToken,
    AwaitResult { timeout_ms: u64 },
    Forward(MessageView),
}

impl View for ManagerAction {
    type V = ManagerActionView;

    open spec fn view(&self) -> ManagerActionView {
        match *self {
            ManagerAction::AwaitToken => ManagerActionView::AwaitToken,
            ManagerAction::AwaitResult { timeout_ms } => ManagerActionView::AwaitResult {
                timeout_ms,
            },
            ManagerAction::Forward(message) => ManagerActionView::Forward(message@),
        }
    }
}

/// How a token phase starts: the answers to the reservations that waited,
/// each for its coffee maker, and what the manager asks for next.
#[derive(Debug)]
pub struct TokenPhase {
    pub responses: Vec<(CoffeeMakerResponse, usize)>,
    pub next: ManagerAction,
}

/// The orders manager as a plain value: its site; the last timestamp it
/// gave out; whether it holds the token, and the token's payload if so; how
/// many outcomes of reserved spends it still waits for; whether it has
/// waited for one in this phase, and whether a wait has timed out.
pub struct ManagerView {
    pub my_id: usize,
    pub last_timestamp: u128,
    pub holding: bool,
    pub token: Map<usize, Seq<AccountAction>>,
    pub pending: nat,
    pub waited: bool,
    pub timed_out: bool,
}

/// What a token phase writes to: the store, the last timestamp given out,
/// and the payload of the token.
pub struct Books {
    pub store: StoreView,
    pub last_timestamp: u128,
    pub token: Map<usize, Seq<AccountAction>>,
}

/// The action that stands on the token for a credit committed at `ts`.
pub open spec fn credit_action(order: CoffeeMakerRequest, ts: u128) -> AccountAction {
    AccountAction {
        message_type: MessageType::AddPoints,
        account_id: order.account_id,
        points: order.points,
        last_updated_on: ts,
    }
}

/// The action that stands on the token for a spend committed at `ts`.
pub open spec fn spend_action(order: CoffeeMakerRequest, ts: u128) -> AccountAction {
    AccountAction {
        message_type: MessageType::TakePoints,
        account_id: order.account_id,
        points: order.points,
        last_updated_on: ts,
    }
}

/// The token's payload with one more action under a site.
pub open spec fn recorded(
    token: Map<usize, Seq<AccountAction>>,
    site: usize,
    action: AccountAction,
) -> Map<usize, Seq<AccountAction>> {
    token.insert(site, actions_of(token, site).push(action))
}

/// The books after site `my_id` commits a credit with the clock reading
/// `reading`: the credit gets a fresh timestamp, is replayed on the store
/// like a credit of any site, and is recorded on the token.
pub open spec fn credit_booked(
    my_id: usize,
    books: Books,
    order: CoffeeMakerRequest,
    reading: Option<u128>,
) -> Books {
    let ts = fresh_timestamp(books.last_timestamp, reading);
    Books {
        store: replay(books.store, credit_action(order, ts)),
        last_timestamp: ts,
        token: recorded(books.token, my_id, credit_action(order, ts)),
    }
}

/// The books after a list of credits is committed in order, each with its
/// own clock reading.
pub open spec fn credits_booked(
    my_id: usize,
    books: Books,
    orders: Seq<CoffeeMakerRequest>,
    readings: Seq<Option<u128>>,
) -> Books
    decreases orders.len(),
{
    if orders.len() == 0 {
        books
    } else {
        credit_booked(
            my_id,
            credits_booked(my_id, books, orders.drop_last(), readings.drop_last()),
            orders.last(),
            readings.last(),
        )
    }
}

/// The books after the outcome of a reserved spend is dealt with.
///
/// - A cancel clears the reservation; nothing goes on the token.
/// - A commit gets a fresh timestamp. Where the store accepts the spend, it
///   is applied and recorded on the token; where the store refuses it, only
///   the timestamp is used up.
/// - Anything else changes nothing.
pub open spec fn outcome_booked(
    my_id: usize,
    books: Books,
    result: CoffeeMakerRequest,
    reading: Option<u128>,
) -> Books {
    match result.message_type {
        MessageType::CancelPointsRequest => Books {
            store: cancel_reserve(books.store, result.account_id),
            ..books
        },
        MessageType::TakePoints => {
            let ts = fresh_timestamp(books.last_timestamp, reading);
            if spend_result(books.store, result.account_id, result.points) is Ok {
                Books {
                    store: commit_spend(books.store, result.account_id, result.points, Some(ts)),
                    last_timestamp: ts,
                    token: recorded(books.token, my_id, spend_action(result, ts)),
                }
            } else {
                Books { last_timestamp: ts, ..books }
            }
        },
        _ => books,
    }
}

/// The answer to a reservation, given the store it meets.
pub open spec fn reservation_response(store: StoreView, order: CoffeeMakerRequest) -> CoffeeMakerResponse {
    CoffeeMakerResponse {
        message_type: MessageType::RequestPoints,
        status: match reserve_result(store, order.account_id, order.points) {
            Ok(_) => ResponseStatus::Success,
            Err(error) => ResponseStatus::Failure(maker_error(error)),
        },
    }
}

/// What comes of a list of reservations: the store, the answers, and how
/// many were granted.
pub struct Answered {
    pub store: StoreView,
    pub responses: Seq<(CoffeeMakerResponse, usize)>,
    pub granted: nat,
}

/// What comes of a list of reservations that are tried in order on a store.
pub open spec fn reservations_answered(
    store: StoreView,
    reservations: Seq<(CoffeeMakerRequest, usize)>,
) -> Answered
    decreases reservations.len(),
{
    if reservations.len() == 0 {
        Answered { store, responses: Seq::empty(), granted: 0 }
    } else {
        let before = reservations_answered(store, reservations.drop_last());
        let order = reservations.last().0;
        Answered {
            store: reserve(before.store, order.account_id, order.points),
            responses: before.responses.push(
                (reservation_response(before.store, order), reservations.last().1),
            ),
            granted: before.granted + if reserve_result(
                before.store,
                order.account_id,
                order.points,
            ) is Ok {
                1nat
            } else {
                0nat
            },
        }
    }
}

/// The manager between two token phases.
pub open spec fn idle(my_id: usize, last_timestamp: u128) -> ManagerView {
    ManagerView {
        my_id,
        last_timestamp,
        holding: false,
        token: Map::empty(),
        pending: 0,
        waited: false,
        timed_out: false,
    }
}

/// The store at the end of a phase: where a wait timed out, the coffee
/// makers that did not answer are given up and every reservation is cleared.
pub open spec fn settled(store: StoreView, timed_out: bool) -> StoreView {
    if timed_out {
        without_reservations(store)
    } else {
        store
    }
}

/// How a token phase starts, given the credits as they came out of the
/// queue and the clock readings made for them: the credits are committed,
/// then the reservations are tried in the order in which they were queued.
/// Where none is granted the phase is over at once and the token goes on;
/// otherwise the manager waits for the first outcome.
pub open spec fn phase_begun(
    pre: ManagerView,
    token: Map<usize, Seq<AccountAction>>,
    store: StoreView,
    reservations: Seq<(CoffeeMakerRequest, usize)>,
    orders: Seq<CoffeeMakerRequest>,
    readings: Seq<Option<u128>>,
    post: ManagerView,
    store_after: StoreView,
    responses: Seq<(CoffeeMakerResponse, usize)>,
    next: ManagerActionView,
) -> bool {
    let booked = credits_booked(
        pre.my_id,
        Books { store, last_timestamp: pre.last_timestamp, token },
        orders,
        readings,
    );
    let answered = reservations_answered(booked.store, reservations);
    &&& responses == answered.responses
    &&& store_after == answered.store
    &&& if answered.granted == 0 {
        &&& post == idle(pre.my_id, booked.last_timestamp)
        &&& next == ManagerActionView::Forward(
            fresh_message(pre.my_id, MessageKind::Token(booked.token)),
        )
    } else {
        &&& post == (ManagerView {
            my_id: pre.my_id,
            last_timestamp: booked.last_timestamp,
            holding: true,
            token: booked.token,
            pending: answered.granted,
            waited: false,
            timed_out: false,
        })
        &&& next == ManagerActionView::AwaitResult { timeout_ms: COFFEE_RESULT_TIMEOUT_IN_MS }
    }
}

/// How a phase goes on once one of the awaited outcomes is in, or the wait
/// for it has timed out, and the books are `books`: with outcomes still
/// awaited the manager waits again, a shorter time; with none, the store is
/// settled and the token goes on.
pub open spec fn phase_continued(
    pre: ManagerView,
    books: Books,
    timed_out: bool,
    post: ManagerView,
    store_after: StoreView,
    next: ManagerActionView,
) -> bool {
    if pre.pending == 1 {
        &&& post == idle(pre.my_id, books.last_timestamp)
        &&& store_after == settled(books.store, timed_out)
        &&& next == ManagerActionView::Forward(
            fresh_message(pre.my_id, MessageKind::Token(books.token)),
        )
    } else {
        &&& post == (ManagerView {
            last_timestamp: books.last_timestamp,
            token: books.token,
            pending: (pre.pending - 1) as nat,
            waited: true,
            timed_out,
            ..pre
        })
        &&& store_after == books.store
        &&& next == ManagerActionView::AwaitResult {
            timeout_ms: POST_INITIAL_TIMEOUT_COFFEE_RESULT_IN_MS,
        }
    }
}

/// The books of a manager: its timestamp and token, with the store.
pub open spec fn books_of(manager: ManagerView, store: StoreView) -> Books {
    Books { store, last_timestamp: manager.last_timestamp, token: manager.token }
}

/// A manager with the timestamp and the token of the books.
pub open spec fn with_books(manager: ManagerView, books: Books) -> ManagerView {
    ManagerView { last_timestamp: books.last_timestamp, token: books.token, ..manager }
}

/// Commits the orders of the coffee makers of a site while the site holds
/// the token.
#[derive(Debug)]
pub struct OrdersManager {
    my_id: usize,
    last_timestamp: u128,
    holding: bool,
    token: TokenData,
    pending: usize,
    waited: bool,
    timed_out: bool,
}

impl View for OrdersManager {
    type V = ManagerView;

    closed spec fn view(&self) -> ManagerView {
        ManagerView {
            my_id: self.my_id,
            last_timestamp: self.last_timestamp,
            holding: self.holding,
            token: token_view(self.token),
            pending: self.pending as nat,
            waited: self.waited,
            timed_out: self.timed_out,
        }
    }
}

impl OrdersManager {
    /// The manager of site `my_id`, before the first token.
    pub fn new(my_id: usize) -> (manager: OrdersManager)
        ensures
            manager@ == idle(my_id, 0),
    {
        let manager = OrdersManager {
            my_id,
            last_timestamp: 0,
            holding: false,
            token: HashMap::new(),
            pending: 0,
            waited: false,
            timed_out: false,
        };
        assert(manager@.token =~= Map::empty());
        manager
    }

    /// Whether a token phase is under way.
    pub fn holds_token(&self) -> (holding: bool)
        ensures
            holding == self@.holding,
    {
        self.holding
    }

    /// How many outcomes of reserved spends the manager still waits for.
    pub fn pending(&self) -> (pending: usize)
        ensures
            pending == self@.pending,
    {
        self.pending
    }

    /// The last timestamp that the manager gave out.
    pub fn last_timestamp(&self) -> (ts: u128)
        ensures
            ts == self@.last_timestamp,
    {
        self.last_timestamp
    }

    /// Commits one credit with a given clock reading: see `credit_booked`.
    pub fn apply_credit(
        &mut self,
        order: &CoffeeMakerRequest,
        reading: Option<u128>,
        accounts: &mut MemoryAccountsManager,
    )
        ensures
            final(accounts)@ == credit_booked(
                old(self)@.my_id,
                books_of(old(self)@, old(accounts)@),
                *order,
                reading,
            ).store,
            final(self)@ == with_books(
                old(self)@,
                credit_booked(
                    old(self)@.my_id,
                    books_of(old(self)@, old(accounts)@),
                    *order,
                    reading,
                ),
            ),
    {
        let timestamp = next_timestamp(self.last_timestamp, reading);
        self.last_timestamp = timestamp;
        let action = AccountAction {
            message_type: MessageType::AddPoints,
            account_id: order.account_id,
            points: order.points,
            last_updated_on: timestamp,
        };
        update_account_with_change(&action, accounts);
        append_action(&mut self.token, self.my_id, action);
    }

    /// Commits a list of credits in order, each with a clock reading of its
    /// own. Whatever the clock gave, the outcome is `credits_booked` of some
    /// readings, one for each credit.
    pub fn apply_credits(
        &mut self,
        orders: &Vec<CoffeeMakerRequest>,
        accounts: &mut MemoryAccountsManager,
    )
        ensures
            exists|readings: Seq<Option<u128>>|
                readings.len() == orders@.len() && final(accounts)@ == (#[trigger] credits_booked(
                    old(self)@.my_id,
                    books_of(old(self)@, old(accounts)@),
                    orders@,
                    readings,
                )).store && final(self)@ == with_books(
                    old(self)@,
                    credits_booked(
                        old(self)@.my_id,
                        books_of(old(self)@, old(accounts)@),
                        orders@,
                        readings,
                    ),
                ),
    {
        let ghost mut readings: Seq<Option<u128>> = Seq::empty();
        let ghost books = books_of(self@, accounts@);
        let mut i: usize = 0;
        proof {
            assert(orders@.subrange(0, 0) =~= Seq::<CoffeeMakerRequest>::empty());
            assert(self@ == with_books(old(self)@, books));
        }
        while i < orders.len()
            invariant
                i <= orders.len(),
                readings.len() == i,
                books == books_of(old(self)@, old(accounts)@),
                accounts@ == credits_booked(
                    old(self)@.my_id,
                    books,
                    orders@.subrange(0, i as int),
                    readings,
                ).store,
                self@ == with_books(
                    old(self)@,
                    credits_booked(old(self)@.my_id, books, orders@.subrange(0, i as int), readings),
                ),
            decreases orders.len() - i,
        {
            let reading = now_ns();
            let ghost before = readings;
            self.apply_credit(&orders[i], reading, accounts);
            proof {
                readings = readings.push(reading);
                assert(readings.drop_last() =~= before);
                assert(orders@.subrange(0, i + 1).drop_last() =~= orders@.subrange(0, i as int));
            }
            i = i + 1;
        }
        proof {
            assert(orders@.subrange(0, i as int) =~= orders@);
        }
    }

    /// Tries a list of reservations in order: see `reservations_answered`.
    /// Gives the answers and how many reservations were granted.
    pub fn grant_reservations(
        reservations: &Vec<(CoffeeMakerRequest, usize)>,
        accounts: &mut MemoryAccountsManager,
    ) -> (outcome: (Vec<(CoffeeMakerResponse, usize)>, usize))
        ensures
            outcome.0@ == reservations_answered(old(accounts)@, reservations@).responses,
            outcome.1 == reservations_answered(old(accounts)@, reservations@).granted,
            final(accounts)@ == reservations_answered(old(accounts)@, reservations@).store,
    {
        let mut responses: Vec<(CoffeeMakerResponse, usize)> = Vec::new();
        let mut granted: usize = 0;
        let mut i: usize = 0;
        assert(reservations@.subrange(0, 0) =~= Seq::<(CoffeeMakerRequest, usize)>::empty());
        while i < reservations.len()
            invariant
                i <= reservations.len(),
                granted <= i,
                responses@ == reservations_answered(
                    old(accounts)@,
                    reservations@.subrange(0, i as int),
                ).responses,
                granted == reservations_answered(
                    old(accounts)@,
                    reservations@.subrange(0, i as int),
                ).granted,
                accounts@ == reservations_answered(
                    old(accounts)@,
                    reservations@.subrange(0, i as int),
                ).store,
            decreases reservations.len() - i,
        {
            let order = reservations[i].0;
            let maker_id = reservations[i].1;
            let status = match accounts.request_points(order.account_id, order.points) {
                Ok(()) => {
                    granted = granted + 1;
                    ResponseStatus::Success
                },
                Err(error) => ResponseStatus::Failure(error.to_maker_error()),
            };
            responses.push(
                (CoffeeMakerResponse { message_type: MessageType::RequestPoints, status }, maker_id),
            );
            assert(reservations@.subrange(0, i + 1).drop_last() =~= reservations@.subrange(
                0,
                i as int,
            ));
            i = i + 1;
        }
        assert(reservations@.subrange(0, i as int) =~= reservations@);
        (responses, granted)
    }

    /// Ends the phase: the store is settled and the token goes on.
    fn release(&mut self, accounts: &mut MemoryAccountsManager) -> (next: ManagerAction)
        ensures
            final(self)@ == idle(old(self)@.my_id, old(self)@.last_timestamp),
            final(accounts)@ == settled(old(accounts)@, old(self)@.timed_out),
            next@ == ManagerActionView::Forward(
                fresh_message(old(self)@.my_id, MessageKind::Token(old(self)@.token)),
            ),
    {
        if self.timed_out {
            accounts.clear_reservations();
        }
        let mut data: TokenData = HashMap::new();
        std::mem::swap(&mut self.token, &mut data);
        self.holding = false;
        self.pending = 0;
        self.waited = false;
        self.timed_out = false;
        assert(self@.token =~= Map::empty());
        ManagerAction::Forward(recreate_token(self.my_id, data))
    }

    /// Goes on with the phase after one awaited outcome is dealt with.
    fn proceed(&mut self, accounts: &mut MemoryAccountsManager) -> (next: ManagerAction)
        requires
            old(self)@.pending >= 1,
        ensures
            phase_continued(
                old(self)@,
                books_of(old(self)@, old(accounts)@),
                old(self)@.timed_out,
                final(self)@,
                final(accounts)@,
                next@,
            ),
    {
        if self.pending == 1 {
            self.release(accounts)
        } else {
            self.pending = self.pending - 1;
            self.waited = true;
            ManagerAction::AwaitResult { timeout_ms: POST_INITIAL_TIMEOUT_COFFEE_RESULT_IN_MS }
        }
    }

    /// A token has come in: starts the token phase. The credits that wait in
    /// the queue are taken out, reduced by account, and committed; then the
    /// reservations that wait are taken out and tried. Whatever order the
    /// credits came out in and whatever the clock gave, the outcome is
    /// `phase_begun` of some such order and readings.
    ///
    /// The manager must be between two phases: a site holds one token at a
    /// time.
    pub fn handle_orders(
        &mut self,
        token: TokenData,
        orders: &mut OrdersQueue,
        accounts: &mut MemoryAccountsManager,
    ) -> (phase: TokenPhase)
        requires
            !old(self)@.holding,
        ensures
            final(orders)@.credits.len() == 0,
            final(orders)@.reservations.len() == 0,
            exists|credits: Seq<CoffeeMakerRequest>, readings: Seq<Option<u128>>|
                coalesces(requests_of(old(orders)@.credits), credits) && readings.len()
                    == credits.len() && #[trigger] phase_begun(
                    old(self)@,
                    token_view(token),
                    old(accounts)@,
                    old(orders)@.reservations,
                    credits,
                    readings,
                    final(self)@,
                    final(accounts)@,
                    phase.responses@,
                    phase.next@,
                ),
    {
        let adding_orders = orders.get_and_clear_adding_orders();
        let request_points_orders = orders.get_and_clear_request_points_orders();
        self.token = token;
        self.holding = true;
        self.pending = 0;
        self.waited = false;
        self.timed_out = false;
        let ghost started = self@;
        let ghost store = accounts@;
        self.apply_credits(&adding_orders, accounts);
        let ghost readings = choose|readings: Seq<Option<u128>>|
            readings.len() == adding_orders@.len() && accounts@ == (#[trigger] credits_booked(
                started.my_id,
                books_of(started, store),
                adding_orders@,
                readings,
            )).store && self@ == with_books(
                started,
                credits_booked(started.my_id, books_of(started, store), adding_orders@, readings),
            );
        let (responses, granted) = OrdersManager::grant_reservations(
            &request_points_orders,
            accounts,
        );
        let next = if granted == 0 {
            self.release(accounts)
        } else {
            self.pending = granted;
            ManagerAction::AwaitResult { timeout_ms: COFFEE_RESULT_TIMEOUT_IN_MS }
        };
        let phase = TokenPhase { responses, next };
        proof {
            assert(books_of(started, store) == (Books {
                store: old(accounts)@,
                last_timestamp: old(self)@.last_timestamp,
                token: token_view(token),
            }));
            assert(coalesces(requests_of(old(orders)@.credits), adding_orders@));
            assert(readings.len() == adding_orders@.len());
            assert(request_points_orders@ == old(orders)@.reservations);
            assert(phase_begun(
                old(self)@,
                token_view(token),
                old(accounts)@,
                old(orders)@.reservations,
                adding_orders@,
                readings,
                self@,
                accounts@,
                phase.responses@,
                phase.next@,
            ));
        }
        phase
    }

    /// Deals with the outcome of a reserved spend, given the clock reading
    /// made for it: see `outcome_booked` for what is written and
    /// `phase_continued` for how the phase goes on. A manager that waits for
    /// no outcome leaves everything as it is and goes on waiting for the
    /// token.
    pub fn settle_result(
        &mut self,
        result: CoffeeMakerRequest,
        reading: Option<u128>,
        accounts: &mut MemoryAccountsManager,
    ) -> (next: ManagerAction)
        ensures
            !old(self)@.holding || old(self)@.pending == 0 ==> final(self)@ == old(self)@ && final(accounts)@ == old(accounts)@ && next@ == ManagerActionView::AwaitToken,
            old(self)@.holding && old(self)@.pending >= 1 ==> phase_continued(
                old(self)@,
                outcome_booked(
                    old(self)@.my_id,
                    books_of(old(self)@, old(accounts)@),
                    result,
                    reading,
                ),
                old(self)@.timed_out,
                final(self)@,
                final(accounts)@,
                next@,
            ),
    {
        if !self.holding || self.pending == 0 {
            return ManagerAction::AwaitToken;
        }
        match result.message_type {
            MessageType::CancelPointsRequest => {
                let _ = accounts.cancel_requested_points(result.account_id);
            },
            MessageType::TakePoints => {
                let timestamp = next_timestamp(self.last_timestamp, reading);
                self.last_timestamp = timestamp;
                let committed = accounts.substract_points(
                    result.account_id,
                    result.points,
                    Some(timestamp),
                );
                if committed.is_ok() {
                    let action = AccountAction {
                        message_type: MessageType::TakePoints,
                        account_id: result.account_id,
                        points: result.points,
                        last_updated_on: timestamp,
                    };
                    append_action(&mut self.token, self.my_id, action);
                }
            },
            _ => {},
        }
        assert(books_of(self@, accounts@) == outcome_booked(
            old(self)@.my_id,
            books_of(old(self)@, old(accounts)@),
            result,
            reading,
        ));
        self.proceed(accounts)
    }

    /// Deals with the outcome of a reserved spend. A commit is stamped with
    /// a reading of the clock: whatever the clock gave, the outcome is that
    /// of `settle_result` with some reading.
    pub fn handle_result_of_substract_order(
        &mut self,
        result: CoffeeMakerRequest,
        accounts: &mut MemoryAccountsManager,
    ) -> (next: ManagerAction)
        ensures
            !old(self)@.holding || old(self)@.pending == 0 ==> final(self)@ == old(self)@ && final(accounts)@ == old(accounts)@ && next@ == ManagerActionView::AwaitToken,
            old(self)@.holding && old(self)@.pending >= 1 ==> exists|reading: Option<u128>|
                phase_continued(
                    old(self)@,
                    #[trigger] outcome_booked(
                        old(self)@.my_id,
                        books_of(old(self)@, old(accounts)@),
                        result,
                        reading,
                    ),
                    old(self)@.timed_out,
                    final(self)@,
                    final(accounts)@,
                    next@,
                ),
    {
        let reading = match result.message_type {
            MessageType::TakePoints => now_ns(),
            _ => None,
        };
        self.settle_result(result, reading, accounts)
    }

    /// The wait for an outcome has timed out: the outcome is given up, and
    /// every reservation will be cleared when the phase ends. See
    /// `phase_continued`. A manager that waits for no outcome leaves
    /// everything as it is and goes on waiting for the token.
    pub fn handle_timeout(&mut self, accounts: &mut MemoryAccountsManager) -> (next: ManagerAction)
        ensures
            !old(self)@.holding || old(self)@.pending == 0 ==> final(self)@ == old(self)@ && final(accounts)@ == old(accounts)@ && next@ == ManagerActionView::AwaitToken,
            old(self)@.holding && old(self)@.pending >= 1 ==> phase_continued(
                old(self)@,
                books_of(old(self)@, old(accounts)@),
                true,
                final(self)@,
                final(accounts)@,
                next@,
            ),
    {
        if !self.holding || self.pending == 0 {
            return ManagerAction::AwaitToken;
        }
        self.timed_out = true;
        self.proceed(accounts)
    }
}

} // verus!
