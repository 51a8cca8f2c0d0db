//! A request/response bridge over an event-driven socket: open a connection,
//! send one payload once it is open, and settle exactly once on the first reply
//! or the first error.
//!
//! The library holds the decisions of the bridge as a state machine. A driver
//! feeds it the transport's events and performs the actions it hands back.
pub mod laws;
pub mod session;
pub mod settlement;
