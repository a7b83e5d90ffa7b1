//! The slots of the voice-signalling channel, one per event kind.

use vstd::prelude::*;

use crate::errors::VoiceGatewayError;
use crate::gateway::events::{empty_slot, GatewayEvent};
use crate::types::voice::{
    SessionDescription, SessionUpdate, Speaking, SsrcDefinition, VoiceBackendVersion,
    VoiceClientConnectFlags, VoiceClientConnectPlatform, VoiceClientDisconnection,
    VoiceMediaSinkWants, VoiceReady,
};

verus! {

#[derive(Debug)]
pub struct VoiceEvents {
    pub voice_ready: GatewayEvent<VoiceReady>,
    pub backend_version: GatewayEvent<VoiceBackendVersion>,
    pub session_description: GatewayEvent<SessionDescription>,
    pub session_update: GatewayEvent<SessionUpdate>,
    pub speaking: GatewayEvent<Speaking>,
    pub ssrc_definition: GatewayEvent<SsrcDefinition>,
    pub client_disconnect: GatewayEvent<VoiceClientDisconnection>,
    pub client_connect_flags: GatewayEvent<VoiceClientConnectFlags>,
    pub client_connect_platform: GatewayEvent<VoiceClientConnectPlatform>,
    pub media_sink_wants: GatewayEvent<VoiceMediaSinkWants>,
    pub error: GatewayEvent<VoiceGatewayError>,
}

/// A slot in which nothing was dispatched and to which nobody ever
/// subscribed.
pub open spec fn untouched<T>(slot: GatewayEvent<T>) -> bool {
    slot@ == empty_slot::<T>()
}

impl VoiceEvents {
    /// Whether every slot is untouched.
    pub open spec fn all_untouched(&self) -> bool {
        &&& untouched(self.voice_ready)
        &&& untouched(self.backend_version)
        &&& untouched(self.session_description)
        &&& untouched(self.session_update)
        &&& untouched(self.speaking)
        &&& untouched(self.ssrc_definition)
        &&& untouched(self.client_disconnect)
        &&& untouched(self.client_connect_flags)
        &&& untouched(self.client_connect_platform)
        &&& untouched(self.media_sink_wants)
        &&& untouched(self.error)
    }
}

impl Default for VoiceEvents {
    /// The slots of a channel on which nothing has happened yet.
    fn default() -> (events: Self)
        ensures
            events.all_untouched(),
    {
        VoiceEvents {
            voice_ready: GatewayEvent::new(),
            backend_version: GatewayEvent::new(),
            session_description: GatewayEvent::new(),
            session_update: GatewayEvent::new(),
            speaking: GatewayEvent::new(),
            ssrc_definition: GatewayEvent::new(),
            client_disconnect: GatewayEvent::new(),
            client_connect_flags: GatewayEvent::new(),
            client_connect_platform: GatewayEvent::new(),
            media_sink_wants: GatewayEvent::new(),
            error: GatewayEvent::new(),
        }
    }
}

} // verus!
