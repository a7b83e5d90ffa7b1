//! Payload and entity shapes that the engine carries.

pub mod entities;
pub mod schema;
pub mod utils;
pub mod voice;
