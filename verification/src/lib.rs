//! Core of a global input capture and broadcast pipeline.
//!
//! The library verifies the logic of the pipeline: the key/button name
//! table, the press-state tracker that dedupes raw OS callbacks, the
//! per-callback listener step gated by a live configuration, a
//! bounded-history broadcast bus with per-subscriber cursors, and the
//! per-connection streaming session that sends a configuration snapshot
//! before forwarding live events. The surrounding process (OS hook
//! registration, HTTP transport, serialization, persistence) hands plain
//! values in and out of these functions.

pub mod bus;
pub mod config;
pub mod inputs;
pub mod keys;
pub mod listener;
pub mod manage;
pub mod ports;
pub mod presets;
pub mod message;
pub mod stream;
pub mod tracker;
