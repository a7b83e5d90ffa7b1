//! Events of the voice-signalling channel.

use vstd::prelude::*;

use crate::types::utils::Snowflake;

verus! {

/// How media packets are encrypted.
#[derive(Clone, Copy, Debug, PartialEq, Eq, Structural, Hash)]
pub enum VoiceEncryptionMode {
    Xsalsa20Poly1305,
    Xsalsa20Poly1305Suffix,
    Xsalsa20Poly1305Lite,
    Xsalsa20Poly1305LiteRtpsize,
    AeadAes256Gcm,
    AeadAes256GcmRtpsize,
    AeadXchacha20Poly1305Rtpsize,
}

/// The server is ready for media: our synchronisation source and where to
/// send packets.
#[derive(Clone, Debug, PartialEq, Eq)]
pub struct VoiceReady {
    pub ssrc: u32,
    /// The server's address, octet by octet.
    pub ip: [u8; 4],
    pub port: u16,
    /// The encryption modes the server offers.
    pub modes: Vec<VoiceEncryptionMode>,
}

/// Versions of the voice backend.
#[derive(Clone, Debug, PartialEq, Eq)]
pub struct VoiceBackendVersion {
    pub voice: String,
    pub rtc_worker: String,
}

/// What was negotiated for the media session.
#[derive(Clone, Debug, PartialEq, Eq)]
pub struct SessionDescription {
    pub audio_codec: String,
    pub video_codec: String,
    pub media_session_id: String,
    /// The encryption mode; the server's default where it names none.
    pub mode: Option<VoiceEncryptionMode>,
    pub secret_key: Vec<u8>,
}

/// A change to the media session.
#[derive(Clone, Debug, PartialEq, Eq)]
pub struct SessionUpdate {
    pub media_session_id: Option<String>,
    pub audio_codec: Option<String>,
    pub video_codec: Option<String>,
}

/// Who is speaking, and how.
#[derive(Clone, Copy, Debug, PartialEq, Eq, Structural)]
pub struct Speaking {
    /// Bit set of the ways of speaking; zero means silent.
    pub speaking: u8,
    pub ssrc: u32,
    pub user_id: Option<Snowflake>,
    pub delay: Option<u64>,
}

/// The synchronisation sources of a user.
#[derive(Clone, Copy, Debug, PartialEq, Eq, Structural)]
pub struct SsrcDefinition {
    pub audio_ssrc: u32,
    pub video_ssrc: u32,
    pub rtx_ssrc: u32,
    pub user_id: Option<Snowflake>,
}

/// A user left the call.
#[derive(Clone, Copy, Debug, PartialEq, Eq, Structural)]
pub struct VoiceClientDisconnection {
    pub user_id: Snowflake,
}

/// A user joined the call; the flags of their client.
#[derive(Clone, Copy, Debug, PartialEq, Eq, Structural)]
pub struct VoiceClientConnectFlags {
    pub user_id: Snowflake,
    pub flags: Option<u8>,
}

/// A user joined the call; the platform of their client.
#[derive(Clone, Copy, Debug, PartialEq, Eq, Structural)]
pub struct VoiceClientConnectPlatform {
    pub user_id: Snowflake,
    pub platform: u8,
}

/// The media quality that the server wants to receive.
#[derive(Clone, Copy, Debug, PartialEq, Eq, Structural)]
pub struct VoiceMediaSinkWants {
    pub any: u16,
}

} // verus!
