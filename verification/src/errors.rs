use vstd::prelude::*;

verus! {

/// What can go wrong inside a server.
#[derive(Debug, Clone, Copy, PartialEq, Eq, Structural)]
pub enum ServerError {
    ListenerError,
    AcceptError,
    ArgsMissing,
    ArgsFormat,
    LockError,
    ChannelError,
    AccountNotFound,
    NotEnoughPointsInAccount,
    ConnectionLost,
    SerializationError,
    OperationIsOutdated,
    AccountIsReserved,
    CoffeeServerStartError,
    TimestampError,
}

/// The errors that travel between a coffee maker and its server.
#[derive(Debug, Clone, Copy, PartialEq, Eq, Structural)]
pub enum CoffeeSystemError {
    AccountNotFound,
    NotEnoughPoints,
    ConnectionLost,
    ConnectionClosed,
    SerializationError,
    UnexpectedError,
    AccountIsReserved,
}

/// What can go wrong in a coffee maker before it reaches its server.
#[derive(Debug, Clone, Copy, PartialEq, Eq, Structural)]
pub enum CoffeeMakerError {
    /// The order file could not be opened.
    FileReaderNotFoundError,
    /// A line of the order file is not an order.
    FileReaderFormatError,
    /// The program was started with too few arguments.
    ArgsMissing,
}

/// The error a coffee maker is shown when the store refuses a reservation.
pub open spec fn maker_error(error: ServerError) -> CoffeeSystemError {
    match error {
        ServerError::NotEnoughPointsInAccount => CoffeeSystemError::NotEnoughPoints,
        ServerError::AccountNotFound => CoffeeSystemError::AccountNotFound,
        ServerError::AccountIsReserved => CoffeeSystemError::AccountIsReserved,
        ServerError::ConnectionLost => CoffeeSystemError::ConnectionLost,
        _ => CoffeeSystemError::UnexpectedError,
    }
}

impl ServerError {
    /// Maps a store error to the error that is sent back to the coffee maker.
    pub fn to_maker_error(self) -> (error: CoffeeSystemError)
        ensures
            error == maker_error(self),
    {
        match self {
            ServerError::NotEnoughPointsInAccount => CoffeeSystemError::NotEnoughPoints,
            ServerError::AccountNotFound => CoffeeSystemError::AccountNotFound,
            ServerError::AccountIsReserved => CoffeeSystemError::AccountIsReserved,
            ServerError::ConnectionLost => CoffeeSystemError::ConnectionLost,
            _ => CoffeeSystemError::UnexpectedError,
        }
    }
}

} // verus!
