//! Client-side engine for a realtime gateway connection: frame
//! classification, heartbeat liveness, session resumption, the connection
//! state machine and event fan-out, together with the voice-signalling
//! analogue.
//!
//! The engine does no input or output. It is told what happened, in plain
//! values, and answers with what is to be done; sockets, timers and
//! callbacks belong to its caller. What each function returns or changes is
//! stated in its contract and proved with Verus. The few places where the
//! proof rests on code that Verus does not read (the standard library's
//! lower-casing and UTF-8 decoding, `serde_json`'s parser, and the frame type
//! of `tokio_tungstenite`) are marked `external_body` and say in their
//! documentation what is taken on trust.

pub mod errors;
pub mod gateway;
pub mod types;
pub mod voice;
