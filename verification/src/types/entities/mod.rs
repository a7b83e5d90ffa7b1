//! Entities of the platform, as the gateway and the REST layer carry them.

pub mod application;
pub mod channel;
pub mod integration;
pub mod team;
