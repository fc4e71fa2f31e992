//! Client side of a service-discovery handshake: a gateway validates its
//! configuration, registers itself with a discovery endpoint to obtain an
//! identity, and then keeps that identity alive with periodic heartbeats.
//!
//! The crate holds the decisions of that protocol as pure functions and
//! small state machines. The surrounding program performs the network and
//! timer work that the machines ask for and reports back what happened.

pub mod descriptor;
pub mod endpoint;
pub mod error;
pub mod heartbeat;
pub mod object;
pub mod port;
pub mod registrar;
