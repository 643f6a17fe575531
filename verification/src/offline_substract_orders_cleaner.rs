use vstd::prelude::*;
use crate::errors::CoffeeSystemError;
use crate::local_connection_messages::CoffeeMakerRequest;
use crate::local_connection_messages::CoffeeMakerResponse;
use crate::local_connection_messages::MessageType;
use crate::local_connection_messages::ResponseStatus;
use crate::orders_queue::OrdersQueue;

verus! {

/// The answer to a reservation that is given up because the site is
/// offline.
pub open spec fn connection_lost_response() -> CoffeeMakerResponse {
    CoffeeMakerResponse {
        message_type: MessageType::RequestPoints,
        status: ResponseStatus::Failure(CoffeeSystemError::ConnectionLost),
    }
}

/// The answers to a list of reservations that are given up: one for the
/// coffee maker of each, in their order.
pub open spec fn all_failed(reservations: Seq<(CoffeeMakerRequest, usize)>) -> Seq<
    (CoffeeMakerResponse, usize),
> {
    reservations.map_values(
        |order: (CoffeeMakerRequest, usize)| (connection_lost_response(), order.1),
    )
}

/// Gives up the reservations that wait in the queue of a site that has been
/// offline for a while, so that no coffee maker waits forever.
#[derive(Debug)]
pub struct SubstractOrdersCleaner {}

impl SubstractOrdersCleaner {
    pub fn new() -> SubstractOrdersCleaner {
        SubstractOrdersCleaner {  }
    }

    /// Takes every reservation out of the queue and answers it with
    /// `ConnectionLost`. Credits stay queued: they need no connection to be
    /// acknowledged, and are committed once the token comes by again.
    pub fn clean_substract_orders_if_offline(&self, orders: &mut OrdersQueue) -> (responses: Vec<
        (CoffeeMakerResponse, usize),
    >)
        ensures
            responses@ == all_failed(old(orders)@.reservations),
            final(orders)@.reservations.len() == 0,
            final(orders)@.credits == old(orders)@.credits,
    {
        let response = CoffeeMakerResponse {
            message_type: MessageType::RequestPoints,
            status: ResponseStatus::Failure(CoffeeSystemError::ConnectionLost),
        };
        let discarded = orders.get_and_clear_request_points_orders();
        let mut responses: Vec<(CoffeeMakerResponse, usize)> = Vec::new();
        let mut i: usize = 0;
        while i < discarded.len()
            invariant
                i <= discarded.len(),
                response == connection_lost_response(),
                responses@ == all_failed(discarded@.subrange(0, i as int)),
            decreases discarded.len() - i,
        {
            responses.push((response, discarded[i].1));
            i = i + 1;
            assert(responses@ =~= all_failed(discarded@.subrange(0, i as int)));
        }
        assert(discarded@.subrange(0, i as int) =~= discarded@);
        responses
    }
}

} // verus!
