use vstd::prelude::*;

verus! {

/// The first wait, in milliseconds, between two attempts to join the ring.
pub const INITIAL_WAIT_IN_MS_FOR_CONNECTION_ATTEMPT: u64 = 500;

/// The wait between two attempts to join doubles until it reaches this many
/// milliseconds (an hour), and then starts over.
pub const MAX_WAIT_IN_MS_FOR_CONNECTION_ATTEMPT: u64 = 3600000;

/// How long, in milliseconds, the sender of the outbound link waits for a
/// message before it looks at the state of its links.
pub const TO_NEXT_CONN_CHANNEL_TIMEOUT_IN_MS: u64 = 22000;

/// How long, in milliseconds, the orders manager waits for the first outcome
/// of a reserved spend: a little more than it takes to make a coffee.
pub const COFFEE_RESULT_TIMEOUT_IN_MS: u64 = 21000;

/// How long, in milliseconds, the orders manager waits for each further
/// outcome of a reserved spend.
pub const POST_INITIAL_TIMEOUT_COFFEE_RESULT_IN_MS: u64 = 500;

/// Once the wait between two attempts to join exceeds this many
/// milliseconds, the reservations that wait in the queue are failed.
pub const CLEAN_ORDERS_TIME_IN_MS: u64 = 4000;

} // verus!
