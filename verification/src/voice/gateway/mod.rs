//! Event fan-out of the voice-signalling channel.

pub mod events;
