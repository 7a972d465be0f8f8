//! A sans-I/O core for fetching one page over plain HTTP: the DNS exchange
//! that finds the host's IPv4 address, and the state machine that drives a
//! single TCP connection through connect, request and response.
//!
//! Nothing here touches a socket. Callers hand in what arrived and carry out
//! the command that comes back.

pub mod addr;
pub mod dns;
pub mod ethernet;
pub mod failure;
pub mod http;
mod rng;
pub mod trace;
pub mod wire;
