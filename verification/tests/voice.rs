use chorus::gateway::connection::Clock;
use chorus::types::utils::Snowflake;
use chorus::types::voice::{
    SessionDescription, SessionUpdate, Speaking, SsrcDefinition, VoiceBackendVersion,
    VoiceClientConnectFlags, VoiceClientConnectPlatform, VoiceClientDisconnection,
    VoiceEncryptionMode, VoiceMediaSinkWants, VoiceReady,
};
use chorus::voice::gateway::events::VoiceEvents;
use chorus::voice::session::{SpeakerState, VoiceAction, VoiceInput, VoicePhase, VoiceSession};

fn at(now_ms: u64) -> Clock {
    Clock { now_ms, jitter_ppm: 1_000_000 }
}

fn ready() -> VoiceReady {
    VoiceReady {
        ssrc: 7,
        ip: [127, 0, 0, 1],
        port: 5000,
        modes: vec![VoiceEncryptionMode::Xsalsa20Poly1305, VoiceEncryptionMode::AeadAes256Gcm],
    }
}

fn description() -> SessionDescription {
    SessionDescription {
        audio_codec: "opus".to_string(),
        video_codec: "H264".to_string(),
        media_session_id: "media".to_string(),
        mode: Some(VoiceEncryptionMode::AeadAes256Gcm),
        secret_key: vec![9; 32],
    }
}

fn in_call() -> VoiceSession {
    let mut session = VoiceSession::new();
    assert_eq!(session.phase(), VoicePhase::Disconnected);
    assert_eq!(session.handle(VoiceInput::Connect, at(0)), vec![VoiceAction::OpenSocket]);
    assert_eq!(session.phase(), VoicePhase::Connecting);
    assert_eq!(session.handle(VoiceInput::Opened, at(1)), vec![]);
    assert_eq!(session.phase(), VoicePhase::AwaitingHello);
    assert_eq!(
        session.handle(VoiceInput::Hello { heartbeat_interval_ms: 5_000 }, at(2)),
        vec![VoiceAction::SendIdentify]
    );
    assert_eq!(session.phase(), VoicePhase::Identifying);
    assert_eq!(
        session.handle(VoiceInput::Ready(ready()), at(3)),
        vec![VoiceAction::Forward, VoiceAction::SendSelectProtocol]
    );
    assert_eq!(session.phase(), VoicePhase::SessionDescriptionPending);
    assert_eq!(
        session.handle(VoiceInput::SessionDescription(description()), at(4)),
        vec![VoiceAction::Forward, VoiceAction::SignalConnected]
    );
    assert_eq!(session.phase(), VoicePhase::Active);
    session
}

#[test]
fn voice_session_negotiates_in_order() {
    let session = in_call();
    assert_eq!(*session.ready(), Some(ready()));
    assert_eq!(*session.session_description(), Some(description()));
    assert_eq!(*session.backend_version(), None);
    assert_eq!(session.media_sink_wants(), None);
    assert_eq!(session.speaker(7), None);
    assert!(!session.is_member(Snowflake(1)));
}

#[test]
fn voice_events_out_of_phase_are_ignored() {
    let mut session = VoiceSession::new();
    assert_eq!(session.handle(VoiceInput::Ready(ready()), at(0)), vec![]);
    assert_eq!(session.handle(VoiceInput::Hello { heartbeat_interval_ms: 1 }, at(0)), vec![]);
    assert_eq!(session.handle(VoiceInput::Tick, at(u64::MAX)), vec![]);
    assert_eq!(session.handle(VoiceInput::Closed, at(0)), vec![]);
    assert_eq!(session.handle(VoiceInput::Disconnect, at(0)), vec![]);
    session.handle(VoiceInput::Connect, at(0));
    session.handle(VoiceInput::Opened, at(1));
    assert_eq!(session.handle(VoiceInput::SessionDescription(description()), at(2)), vec![]);
    assert_eq!(session.phase(), VoicePhase::AwaitingHello);
    session.handle(VoiceInput::Hello { heartbeat_interval_ms: 5_000 }, at(3));
    let news = Speaking { speaking: 1, ssrc: 7, user_id: None, delay: None };
    assert_eq!(session.handle(VoiceInput::Speaking(news), at(4)), vec![]);
    assert_eq!(session.speaker(7), None);
    assert_eq!(session.handle(VoiceInput::SessionDescription(description()), at(5)), vec![]);
    assert_eq!(session.phase(), VoicePhase::Identifying);
    assert_eq!(session.handle(VoiceInput::Connect, at(6)), vec![]);
}

#[test]
fn speakers_are_tracked_by_source() {
    let mut session = in_call();
    let definition =
        SsrcDefinition { audio_ssrc: 11, video_ssrc: 12, rtx_ssrc: 13, user_id: Some(Snowflake(100)) };
    assert_eq!(
        session.handle(VoiceInput::SsrcDefinition(definition), at(10)),
        vec![VoiceAction::Forward]
    );
    assert_eq!(
        session.speaker(11),
        Some(SpeakerState { user_id: Some(Snowflake(100)), speaking: 0 })
    );
    let news = Speaking { speaking: 5, ssrc: 11, user_id: None, delay: Some(0) };
    assert_eq!(session.handle(VoiceInput::Speaking(news), at(11)), vec![VoiceAction::Forward]);
    assert_eq!(
        session.speaker(11),
        Some(SpeakerState { user_id: Some(Snowflake(100)), speaking: 5 })
    );
    let news = Speaking { speaking: 1, ssrc: 21, user_id: Some(Snowflake(200)), delay: None };
    session.handle(VoiceInput::Speaking(news), at(12));
    assert_eq!(
        session.speaker(21),
        Some(SpeakerState { user_id: Some(Snowflake(200)), speaking: 1 })
    );
    let news = Speaking { speaking: 0, ssrc: 31, user_id: None, delay: None };
    session.handle(VoiceInput::Speaking(news), at(13));
    assert_eq!(session.speaker(31), Some(SpeakerState { user_id: None, speaking: 0 }));
    let definition = SsrcDefinition { audio_ssrc: 21, video_ssrc: 0, rtx_ssrc: 0, user_id: None };
    session.handle(VoiceInput::SsrcDefinition(definition), at(14));
    assert_eq!(
        session.speaker(21),
        Some(SpeakerState { user_id: Some(Snowflake(200)), speaking: 1 })
    );
    assert_eq!(session.speaker(12), None);
}

#[test]
fn members_join_and_leave() {
    let mut session = in_call();
    let joined = VoiceClientConnectFlags { user_id: Snowflake(1), flags: Some(2) };
    assert_eq!(
        session.handle(VoiceInput::ClientConnectFlags(joined), at(10)),
        vec![VoiceAction::Forward]
    );
    let joined = VoiceClientConnectPlatform { user_id: Snowflake(2), platform: 0 };
    assert_eq!(
        session.handle(VoiceInput::ClientConnectPlatform(joined), at(11)),
        vec![VoiceAction::Forward]
    );
    assert!(session.is_member(Snowflake(1)));
    assert!(session.is_member(Snowflake(2)));
    assert!(!session.is_member(Snowflake(3)));
    let left = VoiceClientDisconnection { user_id: Snowflake(1) };
    assert_eq!(session.handle(VoiceInput::ClientDisconnect(left), at(12)), vec![VoiceAction::Forward]);
    assert!(!session.is_member(Snowflake(1)));
    assert!(session.is_member(Snowflake(2)));
    session.handle(VoiceInput::ClientDisconnect(left), at(13));
    assert!(!session.is_member(Snowflake(1)));
}

#[test]
fn capabilities_and_versions_are_kept() {
    let mut session = in_call();
    let wants = VoiceMediaSinkWants { any: 100 };
    assert_eq!(session.handle(VoiceInput::MediaSinkWants(wants), at(10)), vec![VoiceAction::Forward]);
    assert_eq!(session.media_sink_wants(), Some(wants));
    let version = VoiceBackendVersion { voice: "0.9.1".to_string(), rtc_worker: "0.3.40".to_string() };
    assert_eq!(
        session.handle(VoiceInput::BackendVersion(version.clone()), at(11)),
        vec![VoiceAction::Forward]
    );
    assert_eq!(*session.backend_version(), Some(version));
    let update = SessionUpdate { media_session_id: None, audio_codec: None, video_codec: None };
    assert_eq!(session.handle(VoiceInput::SessionUpdate(update), at(12)), vec![VoiceAction::Forward]);
    assert_eq!(*session.session_description(), Some(description()));
}

#[test]
fn voice_heartbeat_and_zombie() {
    let mut session = in_call();
    assert_eq!(session.handle(VoiceInput::Tick, at(5_001)), vec![]);
    assert_eq!(session.handle(VoiceInput::Tick, at(5_002)), vec![VoiceAction::SendHeartbeat]);
    assert_eq!(session.handle(VoiceInput::HeartbeatAck, at(5_100)), vec![]);
    assert_eq!(session.handle(VoiceInput::Tick, at(10_099)), vec![]);
    assert_eq!(session.handle(VoiceInput::Tick, at(10_100)), vec![VoiceAction::SendHeartbeat]);
    assert_eq!(
        session.handle(VoiceInput::Tick, at(15_100)),
        vec![VoiceAction::CloseSocket, VoiceAction::SignalDisconnected]
    );
    assert_eq!(session.phase(), VoicePhase::Disconnected);
    assert_eq!(session.handle(VoiceInput::Tick, at(99_999)), vec![]);
}

#[test]
fn teardown_discards_the_voice_state() {
    let mut session = in_call();
    let joined = VoiceClientConnectFlags { user_id: Snowflake(1), flags: None };
    session.handle(VoiceInput::ClientConnectFlags(joined), at(10));
    let news = Speaking { speaking: 1, ssrc: 21, user_id: Some(Snowflake(1)), delay: None };
    session.handle(VoiceInput::Speaking(news), at(11));
    assert_eq!(session.handle(VoiceInput::Closed, at(12)), vec![VoiceAction::SignalDisconnected]);
    assert_eq!(session.phase(), VoicePhase::Disconnected);
    assert_eq!(*session.ready(), None);
    assert_eq!(*session.session_description(), None);
    assert_eq!(session.speaker(21), None);
    assert!(!session.is_member(Snowflake(1)));

    let mut session = in_call();
    assert_eq!(
        session.handle(VoiceInput::Disconnect, at(12)),
        vec![VoiceAction::CloseSocket, VoiceAction::SignalDisconnected]
    );
    assert_eq!(*session.session_description(), None);
    assert_eq!(session.handle(VoiceInput::Connect, at(13)), vec![VoiceAction::OpenSocket]);
}

#[test]
fn voice_events_share_the_slot_shape() {
    let mut events = VoiceEvents::default();
    let listener = events.speaking.subscribe().unwrap();
    let news = Speaking { speaking: 1, ssrc: 21, user_id: None, delay: None };
    assert_eq!(events.speaking.notify(news), vec![listener]);
    assert_eq!(*events.speaking.latest(), Some(news));
    assert!(!events.ssrc_definition.is_observed());
}
