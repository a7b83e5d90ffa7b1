//! The gateway connection engine.

pub mod backoff;
pub mod connection;
pub mod error_table;
pub mod events;
pub mod heartbeat;
pub mod inbound;
pub mod message;
pub mod payload;
pub mod session;
pub mod text;
