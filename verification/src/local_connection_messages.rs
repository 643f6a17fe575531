use vstd::prelude::*;
use crate::errors::CoffeeSystemError;

verus! {

/// The kinds of request a coffee maker sends; a response echoes the kind.
#[derive(Debug, Clone, Copy, PartialEq, Eq, Structural)]
pub enum MessageType {
    /// Credit points to an account (a purchase paid in cash).
    AddPoints,
    /// Reserve points of an account for a purchase paid in points.
    RequestPoints,
    /// Commit a reserved spend: the coffee was made.
    TakePoints,
    /// Cancel a reserved spend: the coffee was not made.
    CancelPointsRequest,
}

/// A request from a coffee maker to its server.
#[derive(Debug, Clone, Copy, PartialEq, Eq, Structural)]
pub struct CoffeeMakerRequest {
    pub message_type: MessageType,
    pub account_id: u64,
    pub points: u64,
}

/// How a request ended.
#[derive(Debug, Clone, Copy, PartialEq, Eq, Structural)]
pub enum ResponseStatus {
    /// The request was carried out, or accepted to be carried out.
    Success,
    /// The request was refused, and why.
    Failure(CoffeeSystemError),
}

/// The answer of a server to a coffee maker.
#[derive(Debug, Clone, Copy, PartialEq, Eq, Structural)]
pub struct CoffeeMakerResponse {
    pub message_type: MessageType,
    pub status: ResponseStatus,
}

} // verus!
