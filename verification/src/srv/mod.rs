//! Session and hub bookkeeping for the server side.
//!
//! The transport sockets and the tasks that block on them live outside this
//! crate; these modules hold every decision those tasks make: which address a
//! peer is registered under, how a session's liveness flag moves, what bytes
//! an outbound send puts on the wire, and when a send must fail instead.

pub mod address;
pub mod connection_hub;
pub mod user;

pub use address::Address;
pub use connection_hub::ConnectionHub;
pub use user::User;
