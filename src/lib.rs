//! Relay of inbound SMS webhooks into a chat room.
//!
//! The library holds the decisions of the relay: reading its settings, the
//! session's lifecycle and readiness, the answers of the health probes, and
//! the delivery of one webhook as a state machine whose outside work (network
//! calls to the homeserver) is carried out by the caller.
pub mod config;
pub mod ids;
pub mod message;
pub mod delivery;
pub mod session;
