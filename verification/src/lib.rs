//! Decision core of an agent that keeps a TLS certificate registered for the
//! machine's current IPv4 address.

pub mod address;
pub mod client;
pub mod decimal;
pub mod guarantees;
pub mod resolver;
pub mod scheduler;
pub mod store;
pub mod token;
