//! A client library for a chat-service platform with two coordinated
//! surfaces: a WebSocket "gateway" that delivers server-pushed events and a
//! REST surface for issuing actions.  This crate holds the verified core:
//! the wire codec for gateway frames, the session state machine, the
//! per-route rate-limit bookkeeping, and the typed request builders.  The
//! sockets, threads and locks that drive it live outside, in the embedding
//! binary.

pub mod error;
pub mod gateway;
pub mod http;
pub mod json;
pub mod model;
pub mod text;
