//! Network session layer of a small client/server game.
//!
//! The crate has three parts, leaves first:
//!
//! * [`packets`] — the wire protocol: a family of fixed-size binary message
//!   kinds, each tagged by a one-byte id, with deterministic encode and decode.
//! * [`srv`] — session and hub bookkeeping: one [`srv::user::User`] per remote
//!   peer with a liveness flag driven by its inbound-read task, and a
//!   [`srv::connection_hub::ConnectionHub`] registry mapping remote addresses
//!   to sessions and dispatching outbound sends.
//! * [`sys`] — small general-purpose helpers such as [`sys::vector::Vector`].
//!
//! The sockets and threads themselves live outside this crate; the crate holds
//! every decision the transport loops make (framing, registry updates, the
//! session state machine) as verified functions from plain values to plain
//! values.

pub mod entity;
pub mod packets;
pub mod srv;
pub mod sys;
