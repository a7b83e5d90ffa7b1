//! The voice session engine: negotiates the media session over the
//! voice-signalling socket and keeps track of who speaks and who is in the
//! call.
//!
//! Like the gateway connection it does no input or output: its caller
//! reports what happened and carries out what it answers.

use std::collections::HashMap;
use std::collections::HashSet;
use vstd::prelude::*;

use crate::gateway::backoff::{clamp_jitter, clamped_jitter};
use crate::gateway::connection::Clock;
use crate::gateway::heartbeat::{
    acked_at, armed_at, poll_action, polled_at, HeartbeatAction, HeartbeatPhase,
    HeartbeatScheduler, HeartbeatView,
};
use crate::types::utils::Snowflake;
use crate::types::voice::{
    SessionDescription, SessionUpdate, Speaking, SsrcDefinition, VoiceBackendVersion,
    VoiceClientConnectFlags, VoiceClientConnectPlatform, VoiceClientDisconnection,
    VoiceMediaSinkWants, VoiceReady,
};

verus! {

broadcast use vstd::std_specs::hash::group_hash_axioms;

/// Where the voice session stands.
#[derive(Clone, Copy, Debug, PartialEq, Eq, Structural)]
pub enum VoicePhase {
    /// No socket.
    Disconnected,
    /// The socket is being opened.
    Connecting,
    /// The socket is open; the server's greeting is awaited.
    AwaitingHello,
    /// Identify was sent; the server's readiness is awaited.
    Identifying,
    /// A protocol was selected; the session description is awaited.
    SessionDescriptionPending,
    /// The media session is negotiated.
    Active,
}

/// What is known of one synchronisation source.
#[derive(Clone, Copy, Debug, PartialEq, Eq, Structural)]
pub struct SpeakerState {
    /// The user behind the source, once the server has told.
    pub user_id: Option<Snowflake>,
    /// Bit set of the ways of speaking; zero means silent.
    pub speaking: u8,
}

/// What happened on the voice-signalling channel.
#[derive(Clone, Debug, PartialEq, Eq)]
pub enum VoiceInput {
    /// The caller asks to connect.
    Connect,
    /// The socket is open.
    Opened,
    /// The server's greeting.
    Hello { heartbeat_interval_ms: u64 },
    Ready(VoiceReady),
    SessionDescription(SessionDescription),
    SessionUpdate(SessionUpdate),
    BackendVersion(VoiceBackendVersion),
    Speaking(Speaking),
    SsrcDefinition(SsrcDefinition),
    ClientConnectFlags(VoiceClientConnectFlags),
    ClientConnectPlatform(VoiceClientConnectPlatform),
    ClientDisconnect(VoiceClientDisconnection),
    MediaSinkWants(VoiceMediaSinkWants),
    /// The server acknowledged a heartbeat.
    HeartbeatAck,
    /// Time has passed.
    Tick,
    /// The socket was closed or failed.
    Closed,
    /// The caller asks to disconnect.
    Disconnect,
}

/// What the caller is to do.
#[derive(Clone, Copy, Debug, PartialEq, Eq, Structural)]
pub enum VoiceAction {
    /// Open the socket.
    OpenSocket,
    /// Send the identify request.
    SendIdentify,
    /// Send the protocol selection that answers the server's readiness.
    SendSelectProtocol,
    /// Send a heartbeat.
    SendHeartbeat,
    /// Hand the event that was just reported to its slot.
    Forward,
    /// Close the socket, if it is still open, and release it.
    CloseSocket,
    /// Tell the caller that the media session stands.
    SignalConnected,
    /// Tell the caller that the voice channel is gone.
    SignalDisconnected,
}

/// The mathematical content of a voice session.
pub ghost struct VoiceView {
    pub phase: VoicePhase,
    pub heartbeat: Option<HeartbeatView>,
    pub backend_version: Option<VoiceBackendVersion>,
    /// Our own source and the server's address, once the server is ready.
    pub ready: Option<VoiceReady>,
    pub session_description: Option<SessionDescription>,
    /// What is known of each synchronisation source.
    pub speakers: Map<u32, SpeakerState>,
    /// The users in the call, by identifier.
    pub members: Set<u64>,
    pub media_sink_wants: Option<VoiceMediaSinkWants>,
}

/// A session on which nothing has been negotiated, in the given phase.
pub open spec fn blank(phase: VoicePhase) -> VoiceView {
    VoiceView {
        phase,
        heartbeat: None,
        backend_version: None,
        ready: None,
        session_description: None,
        speakers: Map::empty(),
        members: Set::empty(),
        media_sink_wants: None,
    }
}

/// Whether the server has greeted in this phase.
pub open spec fn is_greeted(phase: VoicePhase) -> bool {
    phase == VoicePhase::Identifying || phase == VoicePhase::SessionDescriptionPending || phase
        == VoicePhase::Active
}

/// What is known of a source after news of it: the user and the way of
/// speaking are replaced where the news tells them and kept where it does
/// not. A source that was unknown starts silent and without a user.
pub open spec fn updated_speaker(
    known: Option<SpeakerState>,
    user_id: Option<Snowflake>,
    speaking: Option<u8>,
) -> SpeakerState {
    let before = match known {
        Some(state) => state,
        None => SpeakerState { user_id: None, speaking: 0 },
    };
    SpeakerState {
        user_id: if user_id is Some {
            user_id
        } else {
            before.user_id
        },
        speaking: if speaking is Some {
            speaking->0
        } else {
            before.speaking
        },
    }
}

/// What is known of a source.
pub open spec fn known_speaker(speakers: Map<u32, SpeakerState>, ssrc: u32) -> Option<SpeakerState> {
    if speakers.dom().contains(ssrc) {
        Some(speakers[ssrc])
    } else {
        None
    }
}

/// The answer to an input that changes nothing.
pub open spec fn unmoved(view: VoiceView) -> (VoiceView, Seq<VoiceAction>) {
    (view, Seq::<VoiceAction>::empty())
}

/// The answer to news that changes the session while it is active: the news
/// is taken and forwarded. Outside the active phase it is ignored.
pub open spec fn in_call(view: VoiceView, next: VoiceView) -> (VoiceView, Seq<VoiceAction>) {
    if view.phase == VoicePhase::Active {
        (next, seq![VoiceAction::Forward])
    } else {
        unmoved(view)
    }
}

/// The session after an input, and what is to be done.
pub open spec fn voice_step(view: VoiceView, input: VoiceInput, clock: Clock) -> (
    VoiceView,
    Seq<VoiceAction>,
) {
    match input {
        VoiceInput::Connect => if view.phase == VoicePhase::Disconnected {
            (blank(VoicePhase::Connecting), seq![VoiceAction::OpenSocket])
        } else {
            unmoved(view)
        },
        VoiceInput::Opened => if view.phase == VoicePhase::Connecting {
            (VoiceView { phase: VoicePhase::AwaitingHello, ..view }, Seq::<VoiceAction>::empty())
        } else {
            unmoved(view)
        },
        VoiceInput::Hello { heartbeat_interval_ms } => if view.phase == VoicePhase::AwaitingHello {
            let scheduler = HeartbeatView {
                interval_ms: heartbeat_interval_ms,
                jitter_ppm: clamped_jitter(clock.jitter_ppm),
                phase: HeartbeatPhase::Idle,
                deadline: 0,
            };
            (
                VoiceView {
                    phase: VoicePhase::Identifying,
                    heartbeat: Some(armed_at(scheduler, clock.now_ms)),
                    ..view
                },
                seq![VoiceAction::SendIdentify],
            )
        } else {
            unmoved(view)
        },
        VoiceInput::Ready(ready) => if view.phase == VoicePhase::Identifying {
            (
                VoiceView {
                    phase: VoicePhase::SessionDescriptionPending,
                    ready: Some(ready),
                    ..view
                },
                seq![VoiceAction::Forward, VoiceAction::SendSelectProtocol],
            )
        } else {
            unmoved(view)
        },
        VoiceInput::SessionDescription(description) => if view.phase
            == VoicePhase::SessionDescriptionPending {
            (
                VoiceView {
                    phase: VoicePhase::Active,
                    session_description: Some(description),
                    ..view
                },
                seq![VoiceAction::Forward, VoiceAction::SignalConnected],
            )
        } else {
            unmoved(view)
        },
        VoiceInput::SessionUpdate(_) => in_call(view, view),
        VoiceInput::BackendVersion(version) => if is_greeted(view.phase) {
            (VoiceView { backend_version: Some(version), ..view }, seq![VoiceAction::Forward])
        } else {
            unmoved(view)
        },
        VoiceInput::Speaking(news) => in_call(
            view,
            VoiceView {
                speakers: view.speakers.insert(
                    news.ssrc,
                    updated_speaker(
                        known_speaker(view.speakers, news.ssrc),
                        news.user_id,
                        Some(news.speaking),
                    ),
                ),
                ..view
            },
        ),
        VoiceInput::SsrcDefinition(news) => in_call(
            view,
            VoiceView {
                speakers: view.speakers.insert(
                    news.audio_ssrc,
                    updated_speaker(known_speaker(view.speakers, news.audio_ssrc), news.user_id, None),
                ),
                ..view
            },
        ),
        VoiceInput::ClientConnectFlags(news) => in_call(
            view,
            VoiceView { members: view.members.insert(news.user_id.0), ..view },
        ),
        VoiceInput::ClientConnectPlatform(news) => in_call(
            view,
            VoiceView { members: view.members.insert(news.user_id.0), ..view },
        ),
        VoiceInput::ClientDisconnect(news) => in_call(
            view,
            VoiceView { members: view.members.remove(news.user_id.0), ..view },
        ),
        VoiceInput::MediaSinkWants(wants) => in_call(
            view,
            VoiceView { media_sink_wants: Some(wants), ..view },
        ),
        VoiceInput::HeartbeatAck => if is_greeted(view.phase) && view.heartbeat is Some {
            (
                VoiceView { heartbeat: Some(acked_at(view.heartbeat->0, clock.now_ms)), ..view },
                Seq::<VoiceAction>::empty(),
            )
        } else {
            unmoved(view)
        },
        VoiceInput::Tick => if is_greeted(view.phase) && view.heartbeat is Some {
            match poll_action(view.heartbeat->0, clock.now_ms, None) {
                HeartbeatAction::Wait => unmoved(view),
                HeartbeatAction::Beat { sequence } => (
                    VoiceView {
                        heartbeat: Some(polled_at(view.heartbeat->0, clock.now_ms)),
                        ..view
                    },
                    seq![VoiceAction::SendHeartbeat],
                ),
                HeartbeatAction::Zombie => (
                    blank(VoicePhase::Disconnected),
                    seq![VoiceAction::CloseSocket, VoiceAction::SignalDisconnected],
                ),
            }
        } else {
            unmoved(view)
        },
        VoiceInput::Closed => if view.phase != VoicePhase::Disconnected {
            (blank(VoicePhase::Disconnected), seq![VoiceAction::SignalDisconnected])
        } else {
            unmoved(view)
        },
        VoiceInput::Disconnect => if view.phase != VoicePhase::Disconnected {
            (
                blank(VoicePhase::Disconnected),
                seq![VoiceAction::CloseSocket, VoiceAction::SignalDisconnected],
            )
        } else {
            unmoved(view)
        },
    }
}

/// One voice session.
#[derive(Debug)]
pub struct VoiceSession {
    phase: VoicePhase,
    heartbeat: Option<HeartbeatScheduler>,
    backend_version: Option<VoiceBackendVersion>,
    ready: Option<VoiceReady>,
    session_description: Option<SessionDescription>,
    speakers: HashMap<u32, SpeakerState>,
    members: HashSet<u64>,
    media_sink_wants: Option<VoiceMediaSinkWants>,
}

impl View for VoiceSession {
    type V = VoiceView;

    closed spec fn view(&self) -> VoiceView {
        VoiceView {
            phase: self.phase,
            heartbeat: match self.heartbeat {
                Some(scheduler) => Some(scheduler@),
                None => None,
            },
            backend_version: self.backend_version,
            ready: self.ready,
            session_description: self.session_description,
            speakers: self.speakers@,
            members: self.members@,
            media_sink_wants: self.media_sink_wants,
        }
    }
}

/// A list of one action.
fn one(action: VoiceAction) -> (actions: Vec<VoiceAction>)
    ensures
        actions@ == seq![action],
{
    let mut actions: Vec<VoiceAction> = Vec::new();
    actions.push(action);
    assert(actions@ =~= seq![action]);
    actions
}

/// A list of two actions.
fn two(first: VoiceAction, second: VoiceAction) -> (actions: Vec<VoiceAction>)
    ensures
        actions@ == seq![first, second],
{
    let mut actions: Vec<VoiceAction> = Vec::new();
    actions.push(first);
    actions.push(second);
    assert(actions@ =~= seq![first, second]);
    actions
}

impl VoiceSession {
    /// A session that was never connected.
    pub fn new() -> (session: Self)
        ensures
            session@ == blank(VoicePhase::Disconnected),
    {
        VoiceSession {
            phase: VoicePhase::Disconnected,
            heartbeat: None,
            backend_version: None,
            ready: None,
            session_description: None,
            speakers: HashMap::new(),
            members: HashSet::new(),
            media_sink_wants: None,
        }
    }

    /// Where the session stands.
    pub fn phase(&self) -> (phase: VoicePhase)
        ensures
            phase == self@.phase,
    {
        self.phase
    }

    /// What is known of a synchronisation source.
    pub fn speaker(&self, ssrc: u32) -> (state: Option<SpeakerState>)
        ensures
            state == known_speaker(self@.speakers, ssrc),
    {
        match self.speakers.get(&ssrc) {
            Some(state) => Some(*state),
            None => None,
        }
    }

    /// Whether a user is in the call.
    pub fn is_member(&self, user_id: Snowflake) -> (present: bool)
        ensures
            present == self@.members.contains(user_id.0),
    {
        self.members.contains(&user_id.0)
    }

    /// The negotiated session description, once there is one.
    pub fn session_description(&self) -> (description: &Option<SessionDescription>)
        ensures
            *description == self@.session_description,
    {
        &self.session_description
    }

    /// Our own source and the server's address, once the server is ready.
    pub fn ready(&self) -> (ready: &Option<VoiceReady>)
        ensures
            *ready == self@.ready,
    {
        &self.ready
    }

    /// The versions of the voice backend, once the server has told.
    pub fn backend_version(&self) -> (version: &Option<VoiceBackendVersion>)
        ensures
            *version == self@.backend_version,
    {
        &self.backend_version
    }

    /// The media quality that the server asked for last.
    pub fn media_sink_wants(&self) -> (wants: Option<VoiceMediaSinkWants>)
        ensures
            wants == self@.media_sink_wants,
    {
        self.media_sink_wants
    }

    fn reset(&mut self, phase: VoicePhase)
        ensures
            final(self)@ == blank(phase),
    {
        self.phase = phase;
        self.heartbeat = None;
        self.backend_version = None;
        self.ready = None;
        self.session_description = None;
        self.speakers = HashMap::new();
        self.members = HashSet::new();
        self.media_sink_wants = None;
    }

    fn greeted(&self) -> (greeted: bool)
        ensures
            greeted == is_greeted(self@.phase),
    {
        self.phase == VoicePhase::Identifying || self.phase == VoicePhase::SessionDescriptionPending
            || self.phase == VoicePhase::Active
    }

    fn note_speaker(&mut self, ssrc: u32, user_id: Option<Snowflake>, speaking: Option<u8>)
        ensures
            final(self)@ == (VoiceView {
                speakers: old(self)@.speakers.insert(
                    ssrc,
                    updated_speaker(known_speaker(old(self)@.speakers, ssrc), user_id, speaking),
                ),
                ..old(self)@
            }),
    {
        let before = match self.speaker(ssrc) {
            Some(state) => state,
            None => SpeakerState { user_id: None, speaking: 0 },
        };
        let state = SpeakerState {
            user_id: match user_id {
                Some(user_id) => Some(user_id),
                None => before.user_id,
            },
            speaking: match speaking {
                Some(speaking) => speaking,
                None => before.speaking,
            },
        };
        self.speakers.insert(ssrc, state);
    }

    /// Takes an input and answers with what is to be done, in order.
    pub fn handle(&mut self, input: VoiceInput, clock: Clock) -> (actions: Vec<VoiceAction>)
        ensures
            (final(self)@, actions@) == voice_step(old(self)@, input, clock),
    {
        match input {
            VoiceInput::Connect => {
                if self.phase == VoicePhase::Disconnected {
                    self.reset(VoicePhase::Connecting);
                    one(VoiceAction::OpenSocket)
                } else {
                    Vec::new()
                }
            },
            VoiceInput::Opened => {
                if self.phase == VoicePhase::Connecting {
                    self.phase = VoicePhase::AwaitingHello;
                }
                Vec::new()
            },
            VoiceInput::Hello { heartbeat_interval_ms } => {
                if self.phase == VoicePhase::AwaitingHello {
                    let jitter = clamp_jitter(clock.jitter_ppm);
                    match HeartbeatScheduler::new(heartbeat_interval_ms, jitter) {
                        Some(scheduler) => {
                            let mut scheduler = scheduler;
                            scheduler.arm(clock.now_ms);
                            self.heartbeat = Some(scheduler);
                        },
                        None => {},
                    }
                    self.phase = VoicePhase::Identifying;
                    one(VoiceAction::SendIdentify)
                } else {
                    Vec::new()
                }
            },
            VoiceInput::Ready(ready) => {
                if self.phase == VoicePhase::Identifying {
                    self.phase = VoicePhase::SessionDescriptionPending;
                    self.ready = Some(ready);
                    two(VoiceAction::Forward, VoiceAction::SendSelectProtocol)
                } else {
                    Vec::new()
                }
            },
            VoiceInput::SessionDescription(description) => {
                if self.phase == VoicePhase::SessionDescriptionPending {
                    self.phase = VoicePhase::Active;
                    self.session_description = Some(description);
                    two(VoiceAction::Forward, VoiceAction::SignalConnected)
                } else {
                    Vec::new()
                }
            },
            VoiceInput::SessionUpdate(_) => {
                if self.phase == VoicePhase::Active {
                    one(VoiceAction::Forward)
                } else {
                    Vec::new()
                }
            },
            VoiceInput::BackendVersion(version) => {
                if self.greeted() {
                    self.backend_version = Some(version);
                    one(VoiceAction::Forward)
                } else {
                    Vec::new()
                }
            },
            VoiceInput::Speaking(news) => {
                if self.phase == VoicePhase::Active {
                    self.note_speaker(news.ssrc, news.user_id, Some(news.speaking));
                    one(VoiceAction::Forward)
                } else {
                    Vec::new()
                }
            },
            VoiceInput::SsrcDefinition(news) => {
                if self.phase == VoicePhase::Active {
                    self.note_speaker(news.audio_ssrc, news.user_id, None);
                    one(VoiceAction::Forward)
                } else {
                    Vec::new()
                }
            },
            VoiceInput::ClientConnectFlags(news) => {
                if self.phase == VoicePhase::Active {
                    self.members.insert(news.user_id.0);
                    one(VoiceAction::Forward)
                } else {
                    Vec::new()
                }
            },
            VoiceInput::ClientConnectPlatform(news) => {
                if self.phase == VoicePhase::Active {
                    self.members.insert(news.user_id.0);
                    one(VoiceAction::Forward)
                } else {
                    Vec::new()
                }
            },
            VoiceInput::ClientDisconnect(news) => {
                if self.phase == VoicePhase::Active {
                    self.members.remove(&news.user_id.0);
                    one(VoiceAction::Forward)
                } else {
                    Vec::new()
                }
            },
            VoiceInput::MediaSinkWants(wants) => {
                if self.phase == VoicePhase::Active {
                    self.media_sink_wants = Some(wants);
                    one(VoiceAction::Forward)
                } else {
                    Vec::new()
                }
            },
            VoiceInput::HeartbeatAck => {
                if self.greeted() {
                    match self.heartbeat {
                        Some(scheduler) => {
                            let mut scheduler = scheduler;
                            let _ = scheduler.acknowledge(clock.now_ms);
                            self.heartbeat = Some(scheduler);
                        },
                        None => {},
                    }
                }
                Vec::new()
            },
            VoiceInput::Tick => {
                if self.greeted() {
                    match self.heartbeat {
                        Some(scheduler) => {
                            let mut scheduler = scheduler;
                            match scheduler.poll(clock.now_ms, None) {
                                HeartbeatAction::Wait => Vec::new(),
                                HeartbeatAction::Beat { sequence: _ } => {
                                    self.heartbeat = Some(scheduler);
                                    one(VoiceAction::SendHeartbeat)
                                },
                                HeartbeatAction::Zombie => {
                                    self.reset(VoicePhase::Disconnected);
                                    two(VoiceAction::CloseSocket, VoiceAction::SignalDisconnected)
                                },
                            }
                        },
                        None => Vec::new(),
                    }
                } else {
                    Vec::new()
                }
            },
            VoiceInput::Closed => {
                if self.phase != VoicePhase::Disconnected {
                    self.reset(VoicePhase::Disconnected);
                    one(VoiceAction::SignalDisconnected)
                } else {
                    Vec::new()
                }
            },
            VoiceInput::Disconnect => {
                if self.phase != VoicePhase::Disconnected {
                    self.reset(VoicePhase::Disconnected);
                    two(VoiceAction::CloseSocket, VoiceAction::SignalDisconnected)
                } else {
                    Vec::new()
                }
            },
        }
    }
}

/// Media is negotiated in order: the session becomes active only on a
/// session description that arrives while one is pending, and the
/// description is then the one on record.
pub proof fn lemma_active_needs_description(view: VoiceView, input: VoiceInput, clock: Clock)
    requires
        view.phase != VoicePhase::Active,
        voice_step(view, input, clock).0.phase == VoicePhase::Active,
    ensures
        view.phase == VoicePhase::SessionDescriptionPending,
        input is SessionDescription,
        voice_step(view, input, clock).0.session_description == Some(input->SessionDescription_0),
{
}

/// Whenever the voice channel goes down, whatever was negotiated and
/// observed on it is discarded.
pub proof fn lemma_teardown_discards(view: VoiceView, input: VoiceInput, clock: Clock)
    requires
        view.phase != VoicePhase::Disconnected,
        voice_step(view, input, clock).0.phase == VoicePhase::Disconnected,
    ensures
        voice_step(view, input, clock).0 == blank(VoicePhase::Disconnected),
{
}

/// A user who joined is in the call until they leave, and a user who left is
/// not in it until they join again.
pub proof fn lemma_membership(view: VoiceView, user_id: Snowflake, clock: Clock)
    requires
        view.phase == VoicePhase::Active,
    ensures
        voice_step(
            view,
            VoiceInput::ClientConnectFlags(VoiceClientConnectFlags { user_id, flags: None }),
            clock,
        ).0.members.contains(user_id.0),
        !voice_step(
            view,
            VoiceInput::ClientDisconnect(VoiceClientDisconnection { user_id }),
            clock,
        ).0.members.contains(user_id.0),
{
}

} // verus!
