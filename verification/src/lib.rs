//! Sans-I/O client for a JSON-over-websocket trading API.
//!
//! The crate turns operator commands into wire messages, decides whether a
//! message starts a one-shot exchange or a subscription, and correlates the
//! frames that come back with the exchange that asked for them. It performs no
//! I/O: every operation returns the next action for the caller to carry out.

pub mod client;
pub mod codec;
pub mod dispatch;
pub mod error;
pub mod json;
pub mod text;
