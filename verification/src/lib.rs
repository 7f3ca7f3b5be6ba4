//! A fixed-reply TCP responder, written without any I/O of its own.
//!
//! Every connection is served by a small state machine: read whatever the
//! peer sent, answer with one fixed payload, and repeat until the peer closes
//! the stream or the transport fails. The decisions live here; a driver
//! performs the reads and writes and reports how each one ended.
//!
//! - [`payload`]: the reply, byte for byte.
//! - [`handler`]: the state machine of one connection, and what holds of it.
//! - [`readiness`]: the handler whose buffer is borrowed by each read.
//! - [`completion`]: the handler whose buffer is owned by each read.
//! - [`listener`]: the accept loop.
//! - [`model`]: the two execution models and the server's configuration.
//! - [`system`]: the server as a whole, and the isolation of its connections.

pub mod completion;
pub mod handler;
pub mod listener;
pub mod model;
pub mod payload;
pub mod readiness;
pub mod system;
