//! Loyalty points for a chain of coffee shops.
//!
//! Every shop (a site) runs one server. The servers form a token ring and
//! keep a replicated store of point balances; the coffee makers of a shop
//! ask their server to credit points or to spend them. This crate holds the
//! rules of that server: the account store, the order queue, and the state
//! machines of the order pipeline and of the two ring links. Sockets,
//! threads and the wire encoding are left to the program that drives them.
pub mod account;
pub mod accounts_manager;
pub mod address_resolver;
pub mod clock;
pub mod coffee_maker;
pub mod coffee_message_dispatcher;
pub mod connection_status;
pub mod constants;
pub mod errors;
pub mod keys;
pub mod local_connection_messages;
pub mod memory_accounts_manager;
pub mod next_connection;
pub mod offline_substract_orders_cleaner;
pub mod order;
pub mod orders_manager;
pub mod orders_queue;
pub mod previous_connection;
pub mod randomizer;
pub mod ring_laws;
pub mod ring_order;
pub mod serializer;
pub mod server_messages;
pub mod store_laws;
