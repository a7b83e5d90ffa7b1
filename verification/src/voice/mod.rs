//! The voice-signalling channel.

pub mod gateway;
pub mod session;
