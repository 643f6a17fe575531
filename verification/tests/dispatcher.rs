use coffee_loyalty::coffee_message_dispatcher::CoffeeMessageDispatcher;
use coffee_loyalty::coffee_message_dispatcher::Dispatch;
use coffee_loyalty::connection_status::ConnectionStatus;
use coffee_loyalty::errors::CoffeeSystemError;
use coffee_loyalty::local_connection_messages::CoffeeMakerRequest;
use coffee_loyalty::local_connection_messages::CoffeeMakerResponse;
use coffee_loyalty::local_connection_messages::MessageType;
use coffee_loyalty::local_connection_messages::ResponseStatus;
use coffee_loyalty::orders_queue::OrdersQueue;

fn online() -> ConnectionStatus {
    let mut status = ConnectionStatus::new();
    status.set_prev_online();
    status.set_next_online();
    status
}

fn request(message_type: MessageType) -> CoffeeMakerRequest {
    CoffeeMakerRequest { message_type, account_id: 7, points: 10 }
}

fn success(message_type: MessageType) -> Option<CoffeeMakerResponse> {
    Some(CoffeeMakerResponse { message_type, status: ResponseStatus::Success })
}

#[test]
fn a_credit_is_queued_and_acknowledged_at_once_online_or_not() {
    for status in [online(), ConnectionStatus::new()] {
        let mut orders = OrdersQueue::new();
        let dispatch = CoffeeMessageDispatcher::new().dispatch_coffee_request(
            request(MessageType::AddPoints),
            3,
            &status,
            &mut orders,
        );
        assert_eq!(
            dispatch,
            Dispatch { reply: success(MessageType::AddPoints), to_orders_manager: None }
        );
        assert_eq!(orders.credits_len(), 1);
        assert_eq!(orders.reservations_len(), 0);
    }
}

#[test]
fn a_reservation_is_queued_without_an_answer_while_the_site_is_online() {
    let mut orders = OrdersQueue::new();
    let dispatch = CoffeeMessageDispatcher::new().dispatch_coffee_request(
        request(MessageType::RequestPoints),
        3,
        &online(),
        &mut orders,
    );
    assert_eq!(dispatch, Dispatch { reply: None, to_orders_manager: None });
    assert_eq!(
        orders.get_and_clear_request_points_orders(),
        vec![(request(MessageType::RequestPoints), 3)]
    );
}

#[test]
fn a_reservation_is_refused_and_not_queued_while_the_site_is_offline() {
    let mut only_prev = ConnectionStatus::new();
    only_prev.set_prev_online();
    let mut only_next = ConnectionStatus::new();
    only_next.set_next_online();
    for status in [ConnectionStatus::new(), only_prev, only_next] {
        let mut orders = OrdersQueue::new();
        let dispatch = CoffeeMessageDispatcher::new().dispatch_coffee_request(
            request(MessageType::RequestPoints),
            3,
            &status,
            &mut orders,
        );
        assert_eq!(
            dispatch,
            Dispatch {
                reply: Some(CoffeeMakerResponse {
                    message_type: MessageType::RequestPoints,
                    status: ResponseStatus::Failure(CoffeeSystemError::ConnectionLost),
                }),
                to_orders_manager: None,
            }
        );
        assert!(orders.is_empty());
    }
}

#[test]
fn the_outcome_of_a_spend_goes_to_the_orders_manager_and_is_acknowledged() {
    for message_type in [MessageType::TakePoints, MessageType::CancelPointsRequest] {
        for status in [online(), ConnectionStatus::new()] {
            let mut orders = OrdersQueue::new();
            let dispatch = CoffeeMessageDispatcher::new().dispatch_coffee_request(
                request(message_type),
                3,
                &status,
                &mut orders,
            );
            assert_eq!(
                dispatch,
                Dispatch {
                    reply: success(message_type),
                    to_orders_manager: Some(request(message_type)),
                }
            );
            assert!(orders.is_empty());
        }
    }
}
