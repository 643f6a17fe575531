use vstd::prelude::*;
use crate::connection_status::ConnectionStatus;
use crate::errors::CoffeeSystemError;
use crate::local_connection_messages::CoffeeMakerRequest;
use crate::local_connection_messages::CoffeeMakerResponse;
use crate::local_connection_messages::MessageType;
use crate::local_connection_messages::ResponseStatus;
use crate::orders_queue::OrdersQueue;
use crate::orders_queue::QueueView;

verus! {

/// What becomes of a request of a coffee maker: the answer that goes back
/// at once, if any, and the request that goes on to the orders manager, if
/// any.
#[derive(Debug, Clone, Copy, PartialEq, Eq, Structural)]
pub struct Dispatch {
    pub reply: Option<CoffeeMakerResponse>,
    pub to_orders_manager: Option<CoffeeMakerRequest>,
}

/// The answer to a request and what is handed to the orders manager.
///
/// - A credit is acknowledged at once.
/// - A reservation is refused at once while the site is offline. Online it
///   gets no answer yet: that comes from the orders manager once the site
///   holds the token.
/// - The outcome of a reserved spend, commit or cancel, goes on to the
///   orders manager and is acknowledged at once.
pub open spec fn dispatched(online: bool, request: CoffeeMakerRequest) -> Dispatch {
    match request.message_type {
        MessageType::AddPoints => Dispatch {
            reply: Some(
                CoffeeMakerResponse {
                    message_type: request.message_type,
                    status: ResponseStatus::Success,
                },
            ),
            to_orders_manager: None,
        },
        MessageType::RequestPoints => Dispatch {
            reply: if online {
                None
            } else {
                Some(
                    CoffeeMakerResponse {
                        message_type: request.message_type,
                        status: ResponseStatus::Failure(CoffeeSystemError::ConnectionLost),
                    },
                )
            },
            to_orders_manager: None,
        },
        _ => Dispatch {
            reply: Some(
                CoffeeMakerResponse {
                    message_type: request.message_type,
                    status: ResponseStatus::Success,
                },
            ),
            to_orders_manager: Some(request),
        },
    }
}

/// The queue after a request is dispatched: a credit is queued always, a
/// reservation while the site is online, nothing else.
pub open spec fn queued_after(
    queue: QueueView,
    online: bool,
    request: CoffeeMakerRequest,
    maker_id: usize,
) -> QueueView {
    match request.message_type {
        MessageType::AddPoints => QueueView {
            credits: queue.credits.push((request, maker_id)),
            ..queue
        },
        MessageType::RequestPoints if online => QueueView {
            reservations: queue.reservations.push((request, maker_id)),
            ..queue
        },
        _ => queue,
    }
}

/// Sorts the requests of the coffee makers of a site.
#[derive(Debug)]
pub struct CoffeeMessageDispatcher {}

impl CoffeeMessageDispatcher {
    pub fn new() -> CoffeeMessageDispatcher {
        CoffeeMessageDispatcher {  }
    }

    /// Deals with one request of coffee maker `maker_id`: see `dispatched`
    /// and `queued_after`. In particular, a reservation that comes in while
    /// the site is offline is refused with `ConnectionLost` and never
    /// queued, so that no later token phase can grant it.
    pub fn dispatch_coffee_request(
        &self,
        request: CoffeeMakerRequest,
        maker_id: usize,
        status: &ConnectionStatus,
        orders: &mut OrdersQueue,
    ) -> (dispatch: Dispatch)
        ensures
            dispatch == dispatched(status.online(), request),
            final(orders)@ == queued_after(old(orders)@, status.online(), request, maker_id),
            request.message_type == MessageType::RequestPoints && !status.online() ==> {
                &&& dispatch.reply matches Some(response)
                &&& response.status == ResponseStatus::Failure(CoffeeSystemError::ConnectionLost)
                &&& final(orders)@ == old(orders)@
            },
    {
        let acknowledged = CoffeeMakerResponse {
            message_type: request.message_type,
            status: ResponseStatus::Success,
        };
        match request.message_type {
            MessageType::AddPoints => {
                orders.add(request, maker_id);
                Dispatch { reply: Some(acknowledged), to_orders_manager: None }
            },
            MessageType::RequestPoints => {
                if !status.is_online() {
                    return Dispatch {
                        reply: Some(
                            CoffeeMakerResponse {
                                message_type: request.message_type,
                                status: ResponseStatus::Failure(CoffeeSystemError::ConnectionLost),
                            },
                        ),
                        to_orders_manager: None,
                    };
                }
                orders.add(request, maker_id);
                Dispatch { reply: None, to_orders_manager: None }
            },
            _ => Dispatch { reply: Some(acknowledged), to_orders_manager: Some(request) },
        }
    }
}

} // verus!
