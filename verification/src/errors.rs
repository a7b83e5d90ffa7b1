//! Error taxonomies shared by the gateway engine and the request schemas.

use vstd::prelude::*;

verus! {

/// A protocol-level failure announced by the gateway server, either as a
/// human-readable phrase or as a numeric close code.
#[derive(Clone, Copy, Debug, PartialEq, Eq, Structural, Hash)]
pub enum GatewayError {
    Unknown,
    UnknownOpcode,
    Decode,
    NotAuthenticated,
    AuthenticationFailed,
    AlreadyAuthenticated,
    InvalidSequenceNumber,
    RateLimited,
    SessionTimedOut,
    InvalidShard,
    ShardingRequired,
    InvalidAPIVersion,
    InvalidIntents,
    DisallowedIntents,
}

/// Why a user-supplied field of a request schema was rejected.
#[derive(Clone, Copy, Debug, PartialEq, Eq, Structural, Hash)]
pub enum FieldFormatError {
    PasswordError,
    UsernameError,
    ConsentError,
    EmailError,
}

/// A failure announced on the voice-signalling channel.
#[derive(Clone, Copy, Debug, PartialEq, Eq, Structural, Hash)]
pub enum VoiceGatewayError {
    UnknownOpcode,
    FailedToDecodePayload,
    NotAuthenticated,
    AuthenticationFailed,
    AlreadyAuthenticated,
    SessionNoLongerValid,
    SessionTimeout,
    ServerNotFound,
    UnknownProtocol,
    Disconnected,
    VoiceServerCrashed,
    UnknownEncryptionMode,
}

} // verus!
