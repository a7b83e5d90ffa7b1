//! Request shapes of the REST layer.

pub mod application;
pub mod auth;
pub mod channel;
