use coffee_loyalty::local_connection_messages::CoffeeMakerRequest;
use coffee_loyalty::local_connection_messages::CoffeeMakerResponse;
use coffee_loyalty::local_connection_messages::MessageType;
use coffee_loyalty::local_connection_messages::ResponseStatus;
use coffee_loyalty::errors::CoffeeSystemError;
use coffee_loyalty::offline_substract_orders_cleaner::SubstractOrdersCleaner;
use coffee_loyalty::orders_queue::OrdersQueue;

fn credit(account_id: u64, points: u64) -> CoffeeMakerRequest {
    CoffeeMakerRequest { message_type: MessageType::AddPoints, account_id, points }
}

fn reservation(account_id: u64, points: u64) -> CoffeeMakerRequest {
    CoffeeMakerRequest { message_type: MessageType::RequestPoints, account_id, points }
}

fn by_account(mut orders: Vec<CoffeeMakerRequest>) -> Vec<(u64, u64)> {
    orders.sort_by_key(|order| (order.account_id, order.points));
    orders.iter().map(|order| (order.account_id, order.points)).collect()
}

#[test]
fn should_add_both_types_of_orders_to_the_queue() {
    let mut orders = OrdersQueue::new();

    orders.add(
        CoffeeMakerRequest {
            message_type: MessageType::RequestPoints,
            account_id: 0,
            points: 10,
        },
        0,
    );
    orders.add(
        CoffeeMakerRequest {
            message_type: MessageType::AddPoints,
            account_id: 0,
            points: 10,
        },
        0,
    );

    assert!(!orders.is_empty());
    assert_eq!(1, orders.credits_len());
    assert_eq!(1, orders.reservations_len());
}

#[test]
fn should_reduce_same_account_adding_orders() {
    let mut orders = OrdersQueue::new();

    orders.add(
        CoffeeMakerRequest {
            message_type: MessageType::AddPoints,
            account_id: 0,
            points: 10,
        },
        0,
    );
    orders.add(
        CoffeeMakerRequest {
            message_type: MessageType::AddPoints,
            account_id: 0,
            points: 10,
        },
        0,
    );

    assert!(!orders.is_empty());
    assert_eq!(2, orders.credits_len());
    let adding_orders = orders.get_and_clear_adding_orders();
    assert_eq!(1, adding_orders.len());
    assert_eq!(20, adding_orders[0].points);
}

#[test]
fn should_clear_and_return_substract_orders() {
    let mut orders = OrdersQueue::new();

    orders.add(
        CoffeeMakerRequest {
            message_type: MessageType::RequestPoints,
            account_id: 0,
            points: 10,
        },
        0,
    );
    orders.add(
        CoffeeMakerRequest {
            message_type: MessageType::RequestPoints,
            account_id: 0,
            points: 10,
        },
        0,
    );

    assert!(!orders.is_empty());
    assert_eq!(2, orders.reservations_len());
    let substract_orders = orders.get_and_clear_request_points_orders();
    assert_eq!(2, substract_orders.len());
    assert_eq!(0, orders.reservations_len());
}

#[test]
fn should_clean_the_saved_substract_orders() {
    let mut orders = OrdersQueue::new();
    let cleaner = SubstractOrdersCleaner::new();
    orders.add(
        CoffeeMakerRequest {
            message_type: MessageType::RequestPoints,
            account_id: 0,
            points: 10,
        },
        0,
    );
    orders.add(
        CoffeeMakerRequest {
            message_type: MessageType::RequestPoints,
            account_id: 0,
            points: 10,
        },
        0,
    );
    let responses = cleaner.clean_substract_orders_if_offline(&mut orders);
    assert!(orders.is_empty());
    assert_eq!(2, responses.len());
}

#[test]
fn cleaner_answers_each_coffee_maker_with_connection_lost_and_leaves_the_credits() {
    let mut orders = OrdersQueue::new();
    orders.add(reservation(4, 10), 7);
    orders.add(credit(4, 3), 8);
    orders.add(reservation(5, 1), 9);
    let responses = SubstractOrdersCleaner::new().clean_substract_orders_if_offline(&mut orders);
    let lost = CoffeeMakerResponse {
        message_type: MessageType::RequestPoints,
        status: ResponseStatus::Failure(CoffeeSystemError::ConnectionLost),
    };
    assert_eq!(responses, vec![(lost, 7), (lost, 9)]);
    assert_eq!(orders.reservations_len(), 0);
    assert_eq!(orders.credits_len(), 1);
    assert!(!orders.is_empty());
}

#[test]
fn new_queue_is_empty() {
    let mut orders = OrdersQueue::new();
    assert!(orders.is_empty());
    assert!(orders.get_and_clear_adding_orders().is_empty());
    assert!(orders.get_and_clear_request_points_orders().is_empty());
    assert!(OrdersQueue::default().is_empty());
}

#[test]
fn only_credits_and_reservations_are_queued() {
    let mut orders = OrdersQueue::new();
    orders.add(
        CoffeeMakerRequest { message_type: MessageType::TakePoints, account_id: 1, points: 1 },
        0,
    );
    orders.add(
        CoffeeMakerRequest {
            message_type: MessageType::CancelPointsRequest,
            account_id: 1,
            points: 0,
        },
        0,
    );
    assert!(orders.is_empty());
}

#[test]
fn credits_are_reduced_by_account() {
    let mut orders = OrdersQueue::new();
    orders.add(credit(1, 10), 0);
    orders.add(credit(2, 5), 1);
    orders.add(credit(1, 7), 2);
    orders.add(credit(3, 0), 2);
    orders.add(reservation(1, 4), 3);
    let credits = orders.get_and_clear_adding_orders();
    assert!(credits.iter().all(|order| order.message_type == MessageType::AddPoints));
    assert_eq!(by_account(credits), vec![(1, 17), (2, 5), (3, 0)]);
    assert_eq!(orders.credits_len(), 0);
    assert_eq!(orders.reservations_len(), 1);
}

#[test]
fn credits_that_do_not_fit_one_order_are_kept_in_several() {
    let mut orders = OrdersQueue::new();
    orders.add(credit(1, u64::MAX), 0);
    orders.add(credit(1, 1), 0);
    orders.add(credit(2, 9), 0);
    orders.add(credit(1, 2), 0);
    let credits = orders.get_and_clear_adding_orders();
    let total_of_1: u128 = credits
        .iter()
        .filter(|order| order.account_id == 1)
        .map(|order| order.points as u128)
        .sum();
    assert_eq!(total_of_1, u64::MAX as u128 + 3);
    assert_eq!(credits.iter().filter(|order| order.account_id == 1).count(), 2);
    assert_eq!(by_account(credits)[2], (2, 9));
}

#[test]
fn reservations_come_out_oldest_first_with_their_coffee_makers() {
    let mut orders = OrdersQueue::new();
    orders.add(reservation(9, 1), 3);
    orders.add(reservation(8, 2), 1);
    orders.add(reservation(9, 3), 2);
    let reservations = orders.get_and_clear_request_points_orders();
    assert_eq!(
        reservations,
        vec![(reservation(9, 1), 3), (reservation(8, 2), 1), (reservation(9, 3), 2)]
    );
}

#[test]
fn draining_what_was_drained_gives_the_same_points() {
    let mut orders = OrdersQueue::new();
    orders.add(credit(1, 10), 0);
    orders.add(credit(2, 5), 1);
    orders.add(credit(1, 7), 2);
    let drained = orders.get_and_clear_adding_orders();
    for order in drained.iter() {
        orders.add(*order, 0);
    }
    let drained_again = orders.get_and_clear_adding_orders();
    assert_eq!(by_account(drained_again), by_account(drained));
}
