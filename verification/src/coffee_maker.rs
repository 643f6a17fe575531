use vstd::prelude::*;
use crate::errors::CoffeeSystemError;
use crate::local_connection_messages::CoffeeMakerRequest;
use crate::local_connection_messages::CoffeeMakerResponse;
use crate::local_connection_messages::MessageType;
use crate::local_connection_messages::ResponseStatus;
use crate::order::ConsumptionType;
use crate::order::Order;

verus! {

/// What a coffee maker does once an order is dealt with.
#[derive(Debug, Clone, Copy, PartialEq, Eq, Structural)]
pub enum MakerStep {
    /// Read the next order.
    ReadNextOrder,
    /// Stop: the server cannot be reached.
    Stop,
}

/// What a coffee maker asks its server before it makes the coffee: for an
/// order paid in points, to reserve the points; for one paid in cash,
/// nothing.
pub open spec fn opening(order: Order) -> Option<CoffeeMakerRequest> {
    match order.consumption_type {
        ConsumptionType::Points => Some(
            CoffeeMakerRequest {
                message_type: MessageType::RequestPoints,
                account_id: order.account_id,
                points: order.consumption,
            },
        ),
        ConsumptionType::Cash => None,
    }
}

/// What a coffee maker asks its server after it has tried to make the
/// coffee. Paid in points: to take the reserved points where the coffee came
/// out well, to cancel the reservation where it did not. Paid in cash: to
/// credit the points where the coffee came out well, nothing where it did
/// not.
pub open spec fn closing(order: Order, success: bool) -> Option<CoffeeMakerRequest> {
    match order.consumption_type {
        ConsumptionType::Points => Some(
            CoffeeMakerRequest {
                message_type: if success {
                    MessageType::TakePoints
                } else {
                    MessageType::CancelPointsRequest
                },
                account_id: order.account_id,
                points: if success {
                    order.consumption
                } else {
                    0
                },
            },
        ),
        ConsumptionType::Cash => if success {
            Some(
                CoffeeMakerRequest {
                    message_type: MessageType::AddPoints,
                    account_id: order.account_id,
                    points: order.consumption,
                },
            )
        } else {
            None
        },
    }
}

/// Computes `opening`.
pub fn opening_request(order: &Order) -> (request: Option<CoffeeMakerRequest>)
    ensures
        request == opening(*order),
{
    match order.consumption_type {
        ConsumptionType::Points => Some(
            CoffeeMakerRequest {
                message_type: MessageType::RequestPoints,
                account_id: order.account_id,
                points: order.consumption,
            },
        ),
        ConsumptionType::Cash => None,
    }
}

/// Computes `closing`.
pub fn closing_request(order: &Order, success: bool) -> (request: Option<CoffeeMakerRequest>)
    ensures
        request == closing(*order, success),
{
    match order.consumption_type {
        ConsumptionType::Points => {
            if success {
                Some(
                    CoffeeMakerRequest {
                        message_type: MessageType::TakePoints,
                        account_id: order.account_id,
                        points: order.consumption,
                    },
                )
            } else {
                Some(
                    CoffeeMakerRequest {
                        message_type: MessageType::CancelPointsRequest,
                        account_id: order.account_id,
                        points: 0,
                    },
                )
            }
        },
        ConsumptionType::Cash => {
            if success {
                Some(
                    CoffeeMakerRequest {
                        message_type: MessageType::AddPoints,
                        account_id: order.account_id,
                        points: order.consumption,
                    },
                )
            } else {
                None
            }
        },
    }
}

/// How a request ended, as the answer of the server says.
pub fn result_of(response: &CoffeeMakerResponse) -> (result: Result<(), CoffeeSystemError>)
    ensures
        result == match response.status {
            ResponseStatus::Success => Ok::<(), CoffeeSystemError>(()),
            ResponseStatus::Failure(error) => Err::<(), CoffeeSystemError>(error),
        },
{
    match response.status {
        ResponseStatus::Success => Ok(()),
        ResponseStatus::Failure(error) => Err(error),
    }
}

/// What a coffee maker does after an order has ended with `result`: it
/// stops where the connection to the server is lost, and reads the next
/// order after anything else.
pub fn after_server_result(result: Result<(), CoffeeSystemError>) -> (step: MakerStep)
    ensures
        step == if result == Err::<(), CoffeeSystemError>(CoffeeSystemError::ConnectionLost) {
            MakerStep::Stop
        } else {
            MakerStep::ReadNextOrder
        },
{
    match result {
        Err(CoffeeSystemError::ConnectionLost) => MakerStep::Stop,
        _ => MakerStep::ReadNextOrder,
    }
}

} // verus!
