use std::collections::HashMap;

use coffee_loyalty::accounts_manager::AccountsManager;
use coffee_loyalty::coffee_message_dispatcher::CoffeeMessageDispatcher;
use coffee_loyalty::connection_status::ConnectionStatus;
use coffee_loyalty::errors::CoffeeSystemError;
use coffee_loyalty::local_connection_messages::CoffeeMakerRequest;
use coffee_loyalty::local_connection_messages::CoffeeMakerResponse;
use coffee_loyalty::local_connection_messages::MessageType;
use coffee_loyalty::local_connection_messages::ResponseStatus;
use coffee_loyalty::memory_accounts_manager::MemoryAccountsManager;
use coffee_loyalty::orders_manager::ManagerAction;
use coffee_loyalty::orders_manager::OrdersManager;
use coffee_loyalty::orders_queue::OrdersQueue;
use coffee_loyalty::server_messages::AccountAction;
use coffee_loyalty::server_messages::ServerMessage;
use coffee_loyalty::server_messages::ServerMessageType;
use coffee_loyalty::server_messages::TokenData;

fn request(message_type: MessageType, account_id: u64, points: u64) -> CoffeeMakerRequest {
    CoffeeMakerRequest { message_type, account_id, points }
}

fn answer(status: ResponseStatus) -> CoffeeMakerResponse {
    CoffeeMakerResponse { message_type: MessageType::RequestPoints, status }
}

fn online() -> ConnectionStatus {
    let mut status = ConnectionStatus::new();
    status.set_prev_online();
    status.set_next_online();
    status
}

fn state(store: &MemoryAccountsManager, id: u64) -> Option<(u64, bool)> {
    store.account(id).map(|mut account| (account.points(), account.is_reserved()))
}

fn forwarded(action: ManagerAction) -> (ServerMessage, TokenData) {
    match action {
        ManagerAction::Forward(message) => {
            let copy = message.clone();
            match message.message_type {
                ServerMessageType::Token(data) => (copy, data),
                other => panic!("not a token: {:?}", other),
            }
        },
        other => panic!("not forwarded: {:?}", other),
    }
}

fn awaited(action: &ManagerAction) -> u64 {
    match action {
        ManagerAction::AwaitResult { timeout_ms } => *timeout_ms,
        other => panic!("not waiting: {:?}", other),
    }
}

#[test]
fn single_site_single_maker_credits_only() {
    let dispatcher = CoffeeMessageDispatcher::new();
    let mut orders = OrdersQueue::new();
    let mut accounts = MemoryAccountsManager::new();
    let mut manager = OrdersManager::new(0);
    for _ in 0..2 {
        let dispatch = dispatcher.dispatch_coffee_request(
            request(MessageType::AddPoints, 7, 10),
            0,
            &online(),
            &mut orders,
        );
        assert_eq!(
            dispatch.reply,
            Some(CoffeeMakerResponse {
                message_type: MessageType::AddPoints,
                status: ResponseStatus::Success
            })
        );
    }
    let phase = manager.handle_orders(HashMap::new(), &mut orders, &mut accounts);
    assert!(phase.responses.is_empty());
    assert_eq!(state(&accounts, 7), Some((20, false)));
    let (message, data) = forwarded(phase.next);
    assert_eq!(message.sender_id, 0);
    assert!(message.passed_by.is_empty());
    assert_eq!(data.len(), 1);
    assert_eq!(data[&0].len(), 1);
    let action = data[&0][0];
    assert_eq!(
        (action.message_type, action.account_id, action.points),
        (MessageType::AddPoints, 7, 20)
    );
    assert_eq!(accounts.account(7).unwrap().last_updated_on(), action.last_updated_on);
    assert_eq!(manager.last_timestamp(), action.last_updated_on);
    assert!(orders.is_empty());
    assert!(!manager.holds_token());
}

#[test]
fn single_site_spend_happy_path() {
    let dispatcher = CoffeeMessageDispatcher::new();
    let mut orders = OrdersQueue::new();
    let mut accounts = MemoryAccountsManager::new();
    let mut manager = OrdersManager::new(0);
    accounts.add_points(7, 50, Some(1)).unwrap();

    let dispatch = dispatcher.dispatch_coffee_request(
        request(MessageType::RequestPoints, 7, 30),
        4,
        &online(),
        &mut orders,
    );
    assert_eq!(dispatch.reply, None);
    let phase = manager.handle_orders(HashMap::new(), &mut orders, &mut accounts);
    assert_eq!(phase.responses, vec![(answer(ResponseStatus::Success), 4)]);
    assert_eq!(awaited(&phase.next), 21_000);
    assert!(manager.holds_token());
    assert_eq!(manager.pending(), 1);
    assert_eq!(state(&accounts, 7), Some((50, true)));

    let dispatch = dispatcher.dispatch_coffee_request(
        request(MessageType::TakePoints, 7, 30),
        4,
        &online(),
        &mut orders,
    );
    assert_eq!(
        dispatch.reply,
        Some(CoffeeMakerResponse {
            message_type: MessageType::TakePoints,
            status: ResponseStatus::Success
        })
    );
    let result = dispatch.to_orders_manager.expect("the commit goes to the orders manager");
    let next = manager.handle_result_of_substract_order(result, &mut accounts);
    assert_eq!(state(&accounts, 7), Some((20, false)));
    let (_, data) = forwarded(next);
    assert_eq!(data[&0].len(), 1);
    assert_eq!(
        (data[&0][0].message_type, data[&0][0].account_id, data[&0][0].points),
        (MessageType::TakePoints, 7, 30)
    );
    assert_eq!(accounts.account(7).unwrap().last_updated_on(), data[&0][0].last_updated_on);
    assert!(!manager.holds_token());
    assert_eq!(manager.pending(), 0);
}

#[test]
fn single_site_spend_denied() {
    let dispatcher = CoffeeMessageDispatcher::new();
    let mut orders = OrdersQueue::new();
    let mut accounts = MemoryAccountsManager::new();
    let mut manager = OrdersManager::new(0);
    accounts.add_points(7, 50, Some(1)).unwrap();
    dispatcher.dispatch_coffee_request(
        request(MessageType::RequestPoints, 7, 100),
        4,
        &online(),
        &mut orders,
    );
    let phase = manager.handle_orders(HashMap::new(), &mut orders, &mut accounts);
    assert_eq!(
        phase.responses,
        vec![(answer(ResponseStatus::Failure(CoffeeSystemError::NotEnoughPoints)), 4)]
    );
    assert_eq!(state(&accounts, 7), Some((50, false)));
    assert_eq!(accounts.account(7).unwrap().last_updated_on(), 1);
    let (_, data) = forwarded(phase.next);
    assert!(data.is_empty());
}

#[test]
fn a_token_goes_on_unchanged_when_nothing_waits() {
    let mut orders = OrdersQueue::new();
    let mut accounts = MemoryAccountsManager::new();
    let mut manager = OrdersManager::new(2);
    let mut token: TokenData = HashMap::new();
    let other = AccountAction {
        message_type: MessageType::AddPoints,
        account_id: 1,
        points: 2,
        last_updated_on: 3,
    };
    token.insert(1, vec![other]);
    let phase = manager.handle_orders(token, &mut orders, &mut accounts);
    assert!(phase.responses.is_empty());
    let (message, data) = forwarded(phase.next);
    assert_eq!(message.sender_id, 2);
    assert_eq!(data.len(), 1);
    assert_eq!(data[&1], vec![other]);
    assert!(accounts.account(1).is_none());
    assert_eq!(manager.last_timestamp(), 0);
}

#[test]
fn reservations_are_answered_in_order_after_the_credits_of_the_phase() {
    let mut orders = OrdersQueue::new();
    let mut accounts = MemoryAccountsManager::new();
    let mut manager = OrdersManager::new(0);
    orders.add(request(MessageType::RequestPoints, 7, 30), 1);
    orders.add(request(MessageType::RequestPoints, 7, 10), 2);
    orders.add(request(MessageType::RequestPoints, 8, 1), 3);
    orders.add(request(MessageType::RequestPoints, 7, 31), 4);
    orders.add(request(MessageType::AddPoints, 7, 30), 5);
    let phase = manager.handle_orders(HashMap::new(), &mut orders, &mut accounts);
    assert_eq!(
        phase.responses,
        vec![
            (answer(ResponseStatus::Success), 1),
            (answer(ResponseStatus::Failure(CoffeeSystemError::AccountIsReserved)), 2),
            (answer(ResponseStatus::Failure(CoffeeSystemError::AccountNotFound)), 3),
            (answer(ResponseStatus::Failure(CoffeeSystemError::NotEnoughPoints)), 4),
        ]
    );
    assert_eq!(manager.pending(), 1);
    assert_eq!(awaited(&phase.next), 21_000);
}

#[test]
fn the_manager_waits_for_every_granted_reservation() {
    let mut orders = OrdersQueue::new();
    let mut accounts = MemoryAccountsManager::new();
    let mut manager = OrdersManager::new(0);
    for id in 1..=3 {
        accounts.add_points(id, 50, Some(1)).unwrap();
        orders.add(request(MessageType::RequestPoints, id, 20), id as usize);
    }
    let phase = manager.handle_orders(HashMap::new(), &mut orders, &mut accounts);
    assert_eq!(phase.responses.len(), 3);
    assert_eq!(awaited(&phase.next), 21_000);
    let next = manager
        .handle_result_of_substract_order(request(MessageType::TakePoints, 2, 20), &mut accounts);
    assert_eq!(awaited(&next), 500);
    assert_eq!(manager.pending(), 2);
    let next = manager.handle_result_of_substract_order(
        request(MessageType::CancelPointsRequest, 1, 0),
        &mut accounts,
    );
    assert_eq!(awaited(&next), 500);
    assert_eq!(state(&accounts, 1), Some((50, false)));
    assert_eq!(state(&accounts, 2), Some((30, false)));
    assert_eq!(state(&accounts, 3), Some((50, true)));
    let next = manager
        .handle_result_of_substract_order(request(MessageType::TakePoints, 3, 20), &mut accounts);
    let (_, data) = forwarded(next);
    let mine: Vec<(MessageType, u64, u64)> = data[&0]
        .iter()
        .map(|action| (action.message_type, action.account_id, action.points))
        .collect();
    assert_eq!(mine, vec![(MessageType::TakePoints, 2, 20), (MessageType::TakePoints, 3, 20)]);
    assert!(data[&0][0].last_updated_on < data[&0][1].last_updated_on);
    assert_eq!(state(&accounts, 3), Some((30, false)));
}

#[test]
fn a_timeout_gives_up_the_reservations_that_are_still_open() {
    let mut orders = OrdersQueue::new();
    let mut accounts = MemoryAccountsManager::new();
    let mut manager = OrdersManager::new(0);
    for id in 1..=2 {
        accounts.add_points(id, 50, Some(1)).unwrap();
        orders.add(request(MessageType::RequestPoints, id, 20), id as usize);
    }
    let phase = manager.handle_orders(HashMap::new(), &mut orders, &mut accounts);
    assert_eq!(awaited(&phase.next), 21_000);
    let next = manager.handle_timeout(&mut accounts);
    assert_eq!(awaited(&next), 500);
    assert_eq!(state(&accounts, 1), Some((50, true)));
    let next = manager
        .handle_result_of_substract_order(request(MessageType::TakePoints, 1, 20), &mut accounts);
    let (_, data) = forwarded(next);
    assert_eq!(data[&0].len(), 1);
    assert_eq!(state(&accounts, 1), Some((30, false)));
    assert_eq!(state(&accounts, 2), Some((50, false)));
    assert!(!manager.holds_token());
}

#[test]
fn a_phase_without_a_timeout_leaves_other_reservations() {
    let mut orders = OrdersQueue::new();
    let mut accounts = MemoryAccountsManager::new();
    let mut manager = OrdersManager::new(0);
    accounts.add_points(1, 50, Some(1)).unwrap();
    accounts.add_points(2, 50, Some(1)).unwrap();
    accounts.request_points(2, 1).unwrap();
    orders.add(request(MessageType::RequestPoints, 1, 20), 1);
    manager.handle_orders(HashMap::new(), &mut orders, &mut accounts);
    let next = manager.handle_result_of_substract_order(
        request(MessageType::CancelPointsRequest, 1, 0),
        &mut accounts,
    );
    let (_, data) = forwarded(next);
    assert!(data.is_empty());
    assert_eq!(state(&accounts, 2), Some((50, true)));
}

#[test]
fn a_commit_that_the_store_refuses_is_not_put_on_the_token() {
    let mut orders = OrdersQueue::new();
    let mut accounts = MemoryAccountsManager::new();
    let mut manager = OrdersManager::new(0);
    accounts.add_points(1, 50, Some(1)).unwrap();
    orders.add(request(MessageType::RequestPoints, 1, 20), 1);
    manager.handle_orders(HashMap::new(), &mut orders, &mut accounts);
    let next = manager
        .handle_result_of_substract_order(request(MessageType::TakePoints, 1, 51), &mut accounts);
    let (_, data) = forwarded(next);
    assert!(data.is_empty());
    assert_eq!(state(&accounts, 1), Some((50, true)));
}

#[test]
fn an_outcome_that_is_neither_commit_nor_cancel_only_counts() {
    let mut orders = OrdersQueue::new();
    let mut accounts = MemoryAccountsManager::new();
    let mut manager = OrdersManager::new(0);
    accounts.add_points(1, 50, Some(1)).unwrap();
    orders.add(request(MessageType::RequestPoints, 1, 20), 1);
    manager.handle_orders(HashMap::new(), &mut orders, &mut accounts);
    let next = manager
        .handle_result_of_substract_order(request(MessageType::AddPoints, 1, 5), &mut accounts);
    let (_, data) = forwarded(next);
    assert!(data.is_empty());
    assert_eq!(state(&accounts, 1), Some((50, true)));
}

#[test]
fn outcomes_and_timeouts_between_two_phases_change_nothing() {
    let mut accounts = MemoryAccountsManager::new();
    let mut manager = OrdersManager::new(0);
    accounts.add_points(1, 50, Some(1)).unwrap();
    accounts.request_points(1, 1).unwrap();
    let next = manager
        .handle_result_of_substract_order(request(MessageType::TakePoints, 1, 20), &mut accounts);
    assert!(matches!(next, ManagerAction::AwaitToken));
    let next = manager.handle_timeout(&mut accounts);
    assert!(matches!(next, ManagerAction::AwaitToken));
    assert_eq!(state(&accounts, 1), Some((50, true)));
    assert_eq!(manager.last_timestamp(), 0);
}

#[test]
fn credits_get_fresh_timestamps_whatever_the_clock_says() {
    let mut accounts = MemoryAccountsManager::new();
    let mut manager = OrdersManager::new(3);
    manager.apply_credit(&request(MessageType::AddPoints, 1, 5), Some(100), &mut accounts);
    assert_eq!(manager.last_timestamp(), 100);
    manager.apply_credit(&request(MessageType::AddPoints, 1, 5), Some(100), &mut accounts);
    assert_eq!(manager.last_timestamp(), 101);
    manager.apply_credit(&request(MessageType::AddPoints, 1, 5), None, &mut accounts);
    assert_eq!(manager.last_timestamp(), 102);
    manager.apply_credit(&request(MessageType::AddPoints, 2, 5), Some(7), &mut accounts);
    assert_eq!(manager.last_timestamp(), 103);
    let account = accounts.account(1).unwrap();
    assert_eq!((account.points(), account.last_updated_on()), (15, 102));
    let account = accounts.account(2).unwrap();
    assert_eq!((account.points(), account.last_updated_on()), (5, 103));
}

#[test]
fn a_commit_is_stamped_with_the_reading_given() {
    let mut orders = OrdersQueue::new();
    let mut accounts = MemoryAccountsManager::new();
    let mut manager = OrdersManager::new(3);
    accounts.add_points(1, 50, Some(1)).unwrap();
    orders.add(request(MessageType::RequestPoints, 1, 20), 1);
    manager.handle_orders(HashMap::new(), &mut orders, &mut accounts);
    let next =
        manager.settle_result(request(MessageType::TakePoints, 1, 20), Some(77), &mut accounts);
    let (_, data) = forwarded(next);
    assert_eq!(
        data[&3],
        vec![AccountAction {
            message_type: MessageType::TakePoints,
            account_id: 1,
            points: 20,
            last_updated_on: 77
        }]
    );
    assert_eq!(accounts.account(1).unwrap().last_updated_on(), 77);
}

#[test]
fn a_credit_that_does_not_fit_stays_on_the_token_and_off_the_store() {
    let mut accounts = MemoryAccountsManager::new();
    let mut manager = OrdersManager::new(0);
    accounts.add_points(1, u64::MAX, Some(1)).unwrap();
    let mut orders = OrdersQueue::new();
    orders.add(request(MessageType::AddPoints, 1, 1), 0);
    let phase = manager.handle_orders(HashMap::new(), &mut orders, &mut accounts);
    let (_, data) = forwarded(phase.next);
    assert_eq!(data[&0].len(), 1);
    let account = accounts.account(1).unwrap();
    assert_eq!((account.points(), account.last_updated_on()), (u64::MAX, 1));
}

#[test]
fn reservations_are_granted_on_the_store_as_it_stands() {
    let mut accounts = MemoryAccountsManager::new();
    accounts.add_points(1, 10, Some(1)).unwrap();
    let (responses, granted) = OrdersManager::grant_reservations(
        &vec![
            (request(MessageType::RequestPoints, 1, 11), 5),
            (request(MessageType::RequestPoints, 1, 10), 6),
        ],
        &mut accounts,
    );
    assert_eq!(granted, 1);
    assert_eq!(
        responses,
        vec![
            (answer(ResponseStatus::Failure(CoffeeSystemError::NotEnoughPoints)), 5),
            (answer(ResponseStatus::Success), 6),
        ]
    );
}

#[test]
fn credits_are_stamped_one_after_the_other_by_the_clock() {
    let mut accounts = MemoryAccountsManager::new();
    let mut manager = OrdersManager::new(0);
    let credits = vec![
        request(MessageType::AddPoints, 1, 5),
        request(MessageType::AddPoints, 1, 6),
        request(MessageType::AddPoints, 2, 7),
    ];
    manager.apply_credits(&credits, &mut accounts);
    let first = accounts.account(1).unwrap();
    let second = accounts.account(2).unwrap();
    assert_eq!(first.points(), 11);
    assert_eq!(second.points(), 7);
    assert!(first.last_updated_on() > 1_577_836_800_000_000_000);
    assert!(first.last_updated_on() < second.last_updated_on());
    assert_eq!(manager.last_timestamp(), second.last_updated_on());
}
