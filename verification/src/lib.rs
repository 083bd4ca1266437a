//! Push-notification fan-out: a token registry whose mutations are broadcast,
//! set predicates over token keys that decide what a subscriber receives, and
//! the services that tie both to a broadcast bus.

pub mod bus;
pub mod database;
pub mod fcm;
pub mod model;
pub mod predicate;
pub mod rpc;
