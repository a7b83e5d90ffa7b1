//! The connection state machine: connect, greet, identify or resume, run,
//! and on disconnect decide between resumption, a fresh start and giving up.
//!
//! The machine does no input or output. Its caller reports what happened as a
//! `ConnectionEvent` and carries out the `ConnectionAction`s it answers.

use vstd::prelude::*;

use crate::errors::GatewayError;
use crate::gateway::backoff::{clamp_jitter, clamped_jitter, retry_delay, RetryPolicy};
use crate::gateway::heartbeat::{
    acked_at, armed_at, poll_action, polled_at, HeartbeatAction, HeartbeatPhase,
    HeartbeatScheduler, HeartbeatView,
};
use crate::gateway::text::text_view;
use crate::gateway::session::{
    empty_session, outcome_of, sequence_after, SequenceOutcome, SessionState, SessionView,
};

verus! {

/// Where a connection stands.
#[derive(Clone, Copy, Debug, PartialEq, Eq, Structural)]
pub enum ConnectionState {
    /// No socket, and none is being opened.
    Disconnected,
    /// The socket is being opened.
    Connecting,
    /// The socket is open; the server's greeting is awaited.
    AwaitingHello,
    /// Identify or resume was sent; the server's confirmation is awaited.
    Authenticating,
    /// The server confirmed the session.
    Ready,
    /// The steady state.
    Active,
    /// The caller asked to disconnect; the socket is closing.
    Closing,
    /// A retry is scheduled.
    Reconnecting,
}

/// How a disconnect is followed up.
#[derive(Clone, Copy, Debug, PartialEq, Eq, Structural)]
pub enum DisconnectClass {
    /// The connection is given up for good and the session forgotten.
    Fatal,
    /// The connection is retried with a fresh identify.
    Fresh,
    /// The connection is retried and the session resumed.
    Resumable,
}

/// Why a connection was given up.
#[derive(Clone, Copy, Debug, PartialEq, Eq, Structural)]
pub enum Failure {
    /// The server refused the connection for a reason that no retry mends.
    Protocol(GatewayError),
    /// As many retries in a row failed as the policy allows.
    RetriesExhausted,
}

/// The request that opens a session on a fresh socket.
#[derive(Clone, Copy, Debug, PartialEq, Eq, Structural)]
pub enum Handshake {
    /// Start a new session.
    Identify,
    /// Re-enter the session that is remembered.
    Resume,
}

/// The time, and the jitter drawn for this step.
#[derive(Clone, Copy, Debug, PartialEq, Eq, Structural)]
pub struct Clock {
    /// Milliseconds of a monotonic clock.
    pub now_ms: u64,
    /// A number drawn afresh for each step, in millionths; what lies above
    /// one million counts as one million.
    pub jitter_ppm: u32,
}

/// What happened.
#[derive(Clone, Debug, PartialEq, Eq)]
pub enum ConnectionEvent {
    /// The caller asks to connect.
    Connect,
    /// The socket is open.
    Opened,
    /// The socket failed.
    TransportFailed,
    /// The greeting or the confirmation did not arrive in time.
    HandshakeTimedOut,
    /// The socket was closed and no failure was named.
    Closed,
    /// The server's greeting.
    Hello { heartbeat_interval_ms: u64 },
    /// The server confirmed a new session.
    Ready { session_id: String, resume_gateway_url: Option<String>, sequence: Option<u64> },
    /// The server confirmed the resumption.
    Resumed { sequence: Option<u64> },
    /// Any other dispatched event.
    Dispatch { sequence: Option<u64> },
    /// The server asks for a heartbeat at once.
    HeartbeatRequested,
    /// The server acknowledged a heartbeat.
    HeartbeatAck,
    /// The server asks the client to reconnect.
    ReconnectRequested,
    /// The server declared the session invalid.
    InvalidSession { resumable: bool },
    /// A frame named a failure; `closing` tells whether it was a close frame.
    Failure { error: GatewayError, closing: bool },
    /// A frame that is neither a failure nor an envelope.
    Malformed,
    /// A ping or pong of the transport.
    Transport,
    /// Time has passed.
    Tick,
    /// The delay before a retry has passed.
    RetryDue,
    /// The caller asks to disconnect.
    Disconnect,
}

/// The mathematical content of an event.
pub ghost enum EventView {
    Connect,
    Opened,
    TransportFailed,
    HandshakeTimedOut,
    Closed,
    Hello { heartbeat_interval_ms: u64 },
    Ready { session_id: Seq<char>, resume_gateway_url: Option<Seq<char>>, sequence: Option<u64> },
    Resumed { sequence: Option<u64> },
    Dispatch { sequence: Option<u64> },
    HeartbeatRequested,
    HeartbeatAck,
    ReconnectRequested,
    InvalidSession { resumable: bool },
    Failure { error: GatewayError, closing: bool },
    Malformed,
    Transport,
    Tick,
    RetryDue,
    Disconnect,
}

impl View for ConnectionEvent {
    type V = EventView;

    open spec fn view(&self) -> EventView {
        match self {
            ConnectionEvent::Connect => EventView::Connect,
            ConnectionEvent::Opened => EventView::Opened,
            ConnectionEvent::TransportFailed => EventView::TransportFailed,
            ConnectionEvent::HandshakeTimedOut => EventView::HandshakeTimedOut,
            ConnectionEvent::Closed => EventView::Closed,
            ConnectionEvent::Hello { heartbeat_interval_ms } => EventView::Hello {
                heartbeat_interval_ms: *heartbeat_interval_ms,
            },
            ConnectionEvent::Ready { session_id, resume_gateway_url, sequence } => EventView::Ready {
                session_id: session_id@,
                resume_gateway_url: text_view(*resume_gateway_url),
                sequence: *sequence,
            },
            ConnectionEvent::Resumed { sequence } => EventView::Resumed { sequence: *sequence },
            ConnectionEvent::Dispatch { sequence } => EventView::Dispatch { sequence: *sequence },
            ConnectionEvent::HeartbeatRequested => EventView::HeartbeatRequested,
            ConnectionEvent::HeartbeatAck => EventView::HeartbeatAck,
            ConnectionEvent::ReconnectRequested => EventView::ReconnectRequested,
            ConnectionEvent::InvalidSession { resumable } => EventView::InvalidSession {
                resumable: *resumable,
            },
            ConnectionEvent::Failure { error, closing } => EventView::Failure {
                error: *error,
                closing: *closing,
            },
            ConnectionEvent::Malformed => EventView::Malformed,
            ConnectionEvent::Transport => EventView::Transport,
            ConnectionEvent::Tick => EventView::Tick,
            ConnectionEvent::RetryDue => EventView::RetryDue,
            ConnectionEvent::Disconnect => EventView::Disconnect,
        }
    }
}

/// What the caller is to do.
#[derive(Clone, Copy, Debug, PartialEq, Eq, Structural)]
pub enum ConnectionAction {
    /// Open the socket.
    OpenSocket,
    /// Send an identify request.
    SendIdentify,
    /// Send a resume request for the session that the snapshot shows.
    SendResume,
    /// Send a heartbeat that carries this sequence number.
    SendHeartbeat { sequence: Option<u64> },
    /// Hand the event that was just reported to the dispatcher.
    Forward,
    /// Close the socket, if it is still open, and release it.
    CloseSocket,
    /// Report `RetryDue` after this many milliseconds.
    ScheduleRetry { delay_ms: u64 },
    /// Tell the caller of a failure that the connection survives.
    Report { error: GatewayError },
    /// Tell the caller that a sequence number fell below the last one seen.
    ReportRegression { last_seen: u64, received: u64 },
    /// Tell the caller that the connection was given up.
    Surface { failure: Failure },
}

/// How the disconnect that a failure causes is followed up. The six failures
/// that no retry mends are fatal; a rate limit and a timed-out session call
/// for a fresh identify; everything else, and a disconnect without a named
/// failure, is resumable.
pub open spec fn disconnect_class(error: Option<GatewayError>) -> DisconnectClass {
    match error {
        Some(GatewayError::AuthenticationFailed) => DisconnectClass::Fatal,
        Some(GatewayError::InvalidIntents) => DisconnectClass::Fatal,
        Some(GatewayError::DisallowedIntents) => DisconnectClass::Fatal,
        Some(GatewayError::InvalidAPIVersion) => DisconnectClass::Fatal,
        Some(GatewayError::InvalidShard) => DisconnectClass::Fatal,
        Some(GatewayError::ShardingRequired) => DisconnectClass::Fatal,
        Some(GatewayError::RateLimited) => DisconnectClass::Fresh,
        Some(GatewayError::SessionTimedOut) => DisconnectClass::Fresh,
        _ => DisconnectClass::Resumable,
    }
}

/// Decides how a disconnect is followed up.
pub fn classify_disconnect(error: Option<GatewayError>) -> (class: DisconnectClass)
    ensures
        class == disconnect_class(error),
{
    match error {
        Some(GatewayError::AuthenticationFailed) => DisconnectClass::Fatal,
        Some(GatewayError::InvalidIntents) => DisconnectClass::Fatal,
        Some(GatewayError::DisallowedIntents) => DisconnectClass::Fatal,
        Some(GatewayError::InvalidAPIVersion) => DisconnectClass::Fatal,
        Some(GatewayError::InvalidShard) => DisconnectClass::Fatal,
        Some(GatewayError::ShardingRequired) => DisconnectClass::Fatal,
        Some(GatewayError::RateLimited) => DisconnectClass::Fresh,
        Some(GatewayError::SessionTimedOut) => DisconnectClass::Fresh,
        _ => DisconnectClass::Resumable,
    }
}

/// The request that opens the session: a resume where a session identifier
/// is remembered, an identify where none is.
pub open spec fn handshake_for(session: SessionView) -> Handshake {
    if session.session_id is Some {
        Handshake::Resume
    } else {
        Handshake::Identify
    }
}

/// The mathematical content of a connection.
pub ghost struct ConnectionView {
    pub state: ConnectionState,
    pub session: SessionView,
    /// The heartbeat scheduler, while a greeted socket is open.
    pub heartbeat: Option<HeartbeatView>,
    /// Retries made in a row since the session was last confirmed.
    pub attempts: u32,
    pub policy: RetryPolicy,
    /// Whether the session is to be forgotten before the next retry.
    pub fresh_identify: bool,
    /// Why the connection was given up, if it was.
    pub failure: Option<Failure>,
}

/// Whether a socket is open in this state.
pub open spec fn is_live(state: ConnectionState) -> bool {
    state == ConnectionState::AwaitingHello || state == ConnectionState::Authenticating || state
        == ConnectionState::Ready || state == ConnectionState::Active
}

/// Whether the server has greeted in this state, so that heartbeats run and
/// events may arrive.
pub open spec fn is_greeted(state: ConnectionState) -> bool {
    state == ConnectionState::Authenticating || state == ConnectionState::Ready || state
        == ConnectionState::Active
}

/// The state after something arrived on a greeted socket: a confirmed
/// session enters the steady state.
pub open spec fn settled(state: ConnectionState) -> ConnectionState {
    if state == ConnectionState::Ready {
        ConnectionState::Active
    } else {
        state
    }
}

/// The connection after its socket was lost, and what is to be done. A fatal
/// loss forgets the session and gives the connection up. Any other loss
/// leaves the session as it is and schedules a retry, or gives the
/// connection up if as many retries were already made as the policy allows;
/// a loss that calls for a fresh identify marks the session to be forgotten
/// before the next socket is opened.
pub open spec fn after_loss(
    view: ConnectionView,
    class: DisconnectClass,
    error: Option<GatewayError>,
    clock: Clock,
) -> (ConnectionView, Seq<ConnectionAction>) {
    if class == DisconnectClass::Fatal && error is Some {
        (
            ConnectionView {
                state: ConnectionState::Disconnected,
                session: empty_session(),
                heartbeat: None,
                fresh_identify: false,
                failure: Some(Failure::Protocol(error->0)),
                ..view
            },
            seq![
                ConnectionAction::CloseSocket,
                ConnectionAction::Surface { failure: Failure::Protocol(error->0) },
            ],
        )
    } else if view.attempts >= view.policy.max_attempts {
        (
            ConnectionView {
                state: ConnectionState::Disconnected,
                heartbeat: None,
                fresh_identify: view.fresh_identify || class == DisconnectClass::Fresh,
                failure: Some(Failure::RetriesExhausted),
                ..view
            },
            seq![
                ConnectionAction::CloseSocket,
                ConnectionAction::Surface { failure: Failure::RetriesExhausted },
            ],
        )
    } else {
        (
            ConnectionView {
                state: ConnectionState::Reconnecting,
                heartbeat: None,
                attempts: (view.attempts + 1) as u32,
                fresh_identify: view.fresh_identify || class == DisconnectClass::Fresh,
                ..view
            },
            seq![
                ConnectionAction::CloseSocket,
                ConnectionAction::ScheduleRetry {
                    delay_ms: retry_delay(view.policy, view.attempts, clock.jitter_ppm),
                },
            ],
        )
    }
}

/// The connection after a dispatched event with this sequence number, and
/// what is to be done: the event is forwarded, and a regression of the
/// sequence is reported first.
pub open spec fn after_dispatch(view: ConnectionView, sequence: Option<u64>) -> (
    ConnectionView,
    Seq<ConnectionAction>,
) {
    let session = SessionView {
        sequence: sequence_after(view.session.sequence, sequence),
        ..view.session
    };
    let next = ConnectionView { session, ..view };
    match outcome_of(view.session.sequence, sequence) {
        SequenceOutcome::Regression { last_seen, received } => (
            next,
            seq![
                ConnectionAction::ReportRegression { last_seen, received },
                ConnectionAction::Forward,
            ],
        ),
        _ => (next, seq![ConnectionAction::Forward]),
    }
}

/// The session that a new socket is opened with: the one remembered, or
/// none where the last disconnect called for a fresh identify.
pub open spec fn session_for_connect(view: ConnectionView) -> SessionView {
    if view.fresh_identify {
        empty_session()
    } else {
        view.session
    }
}

/// The answer to an event that changes nothing.
pub open spec fn unmoved(view: ConnectionView) -> (ConnectionView, Seq<ConnectionAction>) {
    (view, Seq::<ConnectionAction>::empty())
}

/// The connection after an event, and what is to be done.
pub open spec fn step(view: ConnectionView, event: EventView, clock: Clock) -> (
    ConnectionView,
    Seq<ConnectionAction>,
) {
    match event {
        EventView::Connect => if view.state == ConnectionState::Disconnected {
            (
                ConnectionView {
                    state: ConnectionState::Connecting,
                    session: session_for_connect(view),
                    attempts: 0,
                    fresh_identify: false,
                    failure: None,
                    ..view
                },
                seq![ConnectionAction::OpenSocket],
            )
        } else {
            unmoved(view)
        },
        EventView::Opened => if view.state == ConnectionState::Connecting {
            (
                ConnectionView { state: ConnectionState::AwaitingHello, ..view },
                Seq::<ConnectionAction>::empty(),
            )
        } else {
            unmoved(view)
        },
        EventView::TransportFailed => step_lost(view, None, clock),
        EventView::HandshakeTimedOut => if view.state == ConnectionState::AwaitingHello
            || view.state == ConnectionState::Authenticating {
            after_loss(view, DisconnectClass::Resumable, None, clock)
        } else {
            unmoved(view)
        },
        EventView::Closed => step_lost(view, None, clock),
        EventView::Hello { heartbeat_interval_ms } => if view.state
            == ConnectionState::AwaitingHello {
            let scheduler = HeartbeatView {
                interval_ms: heartbeat_interval_ms,
                jitter_ppm: clamped_jitter(clock.jitter_ppm),
                phase: HeartbeatPhase::Idle,
                deadline: 0,
            };
            (
                ConnectionView {
                    state: ConnectionState::Authenticating,
                    heartbeat: Some(armed_at(scheduler, clock.now_ms)),
                    ..view
                },
                match handshake_for(view.session) {
                    Handshake::Resume => seq![ConnectionAction::SendResume],
                    Handshake::Identify => seq![ConnectionAction::SendIdentify],
                },
            )
        } else {
            unmoved(view)
        },
        EventView::Ready { session_id, resume_gateway_url, sequence } => if view.state
            == ConnectionState::Authenticating {
            (
                ConnectionView {
                    state: ConnectionState::Ready,
                    session: SessionView {
                        session_id: Some(session_id),
                        sequence: sequence_after(view.session.sequence, sequence),
                        resume_gateway_url,
                    },
                    attempts: 0,
                    ..view
                },
                seq![ConnectionAction::Forward],
            )
        } else {
            unmoved(view)
        },
        EventView::Resumed { sequence } => if view.state == ConnectionState::Authenticating {
            (
                ConnectionView {
                    state: ConnectionState::Ready,
                    session: SessionView {
                        sequence: sequence_after(view.session.sequence, sequence),
                        ..view.session
                    },
                    attempts: 0,
                    ..view
                },
                seq![ConnectionAction::Forward],
            )
        } else {
            unmoved(view)
        },
        EventView::Dispatch { sequence } => if is_greeted(view.state) {
            after_dispatch(ConnectionView { state: settled(view.state), ..view }, sequence)
        } else {
            unmoved(view)
        },
        EventView::HeartbeatRequested => if is_greeted(view.state) {
            (
                ConnectionView { state: settled(view.state), ..view },
                seq![ConnectionAction::SendHeartbeat { sequence: view.session.sequence }],
            )
        } else {
            unmoved(view)
        },
        EventView::HeartbeatAck => if is_greeted(view.state) && view.heartbeat is Some {
            (
                ConnectionView {
                    state: settled(view.state),
                    heartbeat: Some(acked_at(view.heartbeat->0, clock.now_ms)),
                    ..view
                },
                Seq::<ConnectionAction>::empty(),
            )
        } else {
            unmoved(view)
        },
        EventView::ReconnectRequested => if is_live(view.state) {
            after_loss(view, DisconnectClass::Resumable, None, clock)
        } else {
            unmoved(view)
        },
        EventView::InvalidSession { resumable } => if is_live(view.state) {
            after_loss(
                view,
                if resumable {
                    DisconnectClass::Resumable
                } else {
                    DisconnectClass::Fresh
                },
                None,
                clock,
            )
        } else {
            unmoved(view)
        },
        EventView::Failure { error, closing } => if closing {
            step_lost(view, Some(error), clock)
        } else if is_live(view.state) {
            (view, seq![ConnectionAction::Report { error }])
        } else {
            unmoved(view)
        },
        EventView::Malformed => if is_live(view.state) {
            (view, seq![ConnectionAction::Report { error: GatewayError::Decode }])
        } else {
            unmoved(view)
        },
        EventView::Transport => unmoved(view),
        EventView::Tick => if is_greeted(view.state) && view.heartbeat is Some {
            match poll_action(view.heartbeat->0, clock.now_ms, view.session.sequence) {
                HeartbeatAction::Wait => unmoved(view),
                HeartbeatAction::Beat { sequence } => (
                    ConnectionView {
                        heartbeat: Some(polled_at(view.heartbeat->0, clock.now_ms)),
                        ..view
                    },
                    seq![ConnectionAction::SendHeartbeat { sequence }],
                ),
                HeartbeatAction::Zombie => after_loss(
                    view,
                    DisconnectClass::Resumable,
                    None,
                    clock,
                ),
            }
        } else {
            unmoved(view)
        },
        EventView::RetryDue => if view.state == ConnectionState::Reconnecting {
            (
                ConnectionView {
                    state: ConnectionState::Connecting,
                    session: session_for_connect(view),
                    fresh_identify: false,
                    ..view
                },
                seq![ConnectionAction::OpenSocket],
            )
        } else {
            unmoved(view)
        },
        EventView::Disconnect => if is_live(view.state) || view.state
            == ConnectionState::Connecting {
            (
                ConnectionView {
                    state: if is_live(view.state) {
                        ConnectionState::Closing
                    } else {
                        ConnectionState::Disconnected
                    },
                    heartbeat: None,
                    ..view
                },
                seq![ConnectionAction::CloseSocket],
            )
        } else if view.state == ConnectionState::Reconnecting {
            (
                ConnectionView { state: ConnectionState::Disconnected, ..view },
                Seq::<ConnectionAction>::empty(),
            )
        } else {
            unmoved(view)
        },
    }
}

/// The connection after its socket closed or failed, with the failure that
/// the close frame named, if it named one. While the caller's own disconnect
/// is under way this ends it, and nothing is retried.
pub open spec fn step_lost(view: ConnectionView, error: Option<GatewayError>, clock: Clock) -> (
    ConnectionView,
    Seq<ConnectionAction>,
) {
    if view.state == ConnectionState::Closing {
        (
            ConnectionView { state: ConnectionState::Disconnected, heartbeat: None, ..view },
            Seq::<ConnectionAction>::empty(),
        )
    } else if is_live(view.state) || view.state == ConnectionState::Connecting {
        after_loss(view, disconnect_class(error), error, clock)
    } else {
        unmoved(view)
    }
}

/// One gateway connection.
#[derive(Clone, Debug)]
pub struct Connection {
    state: ConnectionState,
    session: SessionState,
    heartbeat: Option<HeartbeatScheduler>,
    attempts: u32,
    policy: RetryPolicy,
    fresh_identify: bool,
    failure: Option<Failure>,
}

/// The content of an optional scheduler.
pub open spec fn heartbeat_view(heartbeat: Option<HeartbeatScheduler>) -> Option<HeartbeatView> {
    match heartbeat {
        Some(scheduler) => Some(scheduler@),
        None => None,
    }
}

impl View for Connection {
    type V = ConnectionView;

    closed spec fn view(&self) -> ConnectionView {
        ConnectionView {
            state: self.state,
            session: self.session@,
            heartbeat: heartbeat_view(self.heartbeat),
            attempts: self.attempts,
            policy: self.policy,
            fresh_identify: self.fresh_identify,
            failure: self.failure,
        }
    }
}

/// A list of one action.
fn one(action: ConnectionAction) -> (actions: Vec<ConnectionAction>)
    ensures
        actions@ == seq![action],
{
    let mut actions: Vec<ConnectionAction> = Vec::new();
    actions.push(action);
    assert(actions@ =~= seq![action]);
    actions
}

/// A list of two actions.
fn two(first: ConnectionAction, second: ConnectionAction) -> (actions: Vec<ConnectionAction>)
    ensures
        actions@ == seq![first, second],
{
    let mut actions: Vec<ConnectionAction> = Vec::new();
    actions.push(first);
    actions.push(second);
    assert(actions@ =~= seq![first, second]);
    actions
}

impl Connection {
    /// A connection that was never opened: disconnected, with nothing
    /// remembered.
    pub fn new(policy: RetryPolicy) -> (connection: Self)
        ensures
            connection@ == (ConnectionView {
                state: ConnectionState::Disconnected,
                session: empty_session(),
                heartbeat: None,
                attempts: 0,
                policy,
                fresh_identify: false,
                failure: None,
            }),
    {
        Connection {
            state: ConnectionState::Disconnected,
            session: SessionState::new(),
            heartbeat: None,
            attempts: 0,
            policy,
            fresh_identify: false,
            failure: None,
        }
    }

    /// Where the connection stands.
    pub fn state(&self) -> (state: ConnectionState)
        ensures
            state == self@.state,
    {
        self.state
    }

    /// Why the connection was given up, if it was.
    pub fn failure(&self) -> (failure: Option<Failure>)
        ensures
            failure == self@.failure,
    {
        self.failure
    }

    /// A copy of the session state, as a resume request needs it.
    pub fn current_session_snapshot(&self) -> (snapshot: SessionState)
        ensures
            snapshot@ == self@.session,
    {
        self.session.snapshot()
    }

    /// The request that would open the session now.
    pub fn handshake(&self) -> (handshake: Handshake)
        ensures
            handshake == handshake_for(self@.session),
    {
        if self.session.can_resume() {
            Handshake::Resume
        } else {
            Handshake::Identify
        }
    }

    /// When the heartbeat scheduler next wants to be polled, while it runs.
    pub fn heartbeat_deadline(&self) -> (deadline: Option<u64>)
        ensures
            deadline == match self@.heartbeat {
                Some(scheduler) => Some(scheduler.deadline),
                None => None,
            },
    {
        match &self.heartbeat {
            Some(scheduler) => Some(scheduler.deadline()),
            None => None,
        }
    }

    fn lose(&mut self, class: DisconnectClass, error: Option<GatewayError>, clock: Clock) -> (actions:
        Vec<ConnectionAction>)
        ensures
            (final(self)@, actions@) == after_loss(old(self)@, class, error, clock),
    {
        self.heartbeat = None;
        match (class, error) {
            (DisconnectClass::Fatal, Some(error)) => {
                self.state = ConnectionState::Disconnected;
                self.session.clear();
                self.fresh_identify = false;
                self.failure = Some(Failure::Protocol(error));
                two(
                    ConnectionAction::CloseSocket,
                    ConnectionAction::Surface { failure: Failure::Protocol(error) },
                )
            },
            _ => {
                if class == DisconnectClass::Fresh {
                    self.fresh_identify = true;
                }
                if self.attempts >= self.policy.max_attempts {
                    self.state = ConnectionState::Disconnected;
                    self.failure = Some(Failure::RetriesExhausted);
                    two(
                        ConnectionAction::CloseSocket,
                        ConnectionAction::Surface { failure: Failure::RetriesExhausted },
                    )
                } else {
                    let delay_ms = self.policy.delay(self.attempts, clock.jitter_ppm);
                    self.state = ConnectionState::Reconnecting;
                    self.attempts = self.attempts + 1;
                    two(ConnectionAction::CloseSocket, ConnectionAction::ScheduleRetry { delay_ms })
                }
            },
        }
    }

    fn drop_socket(&mut self, error: Option<GatewayError>, clock: Clock) -> (actions: Vec<
        ConnectionAction,
    >)
        ensures
            (final(self)@, actions@) == step_lost(old(self)@, error, clock),
    {
        match self.state {
            ConnectionState::Closing => {
                self.state = ConnectionState::Disconnected;
                self.heartbeat = None;
                Vec::new()
            },
            ConnectionState::AwaitingHello
            | ConnectionState::Authenticating
            | ConnectionState::Ready
            | ConnectionState::Active
            | ConnectionState::Connecting => {
                let class = classify_disconnect(error);
                self.lose(class, error, clock)
            },
            _ => Vec::new(),
        }
    }

    fn settle(&mut self)
        ensures
            final(self)@ == (ConnectionView { state: settled(old(self)@.state), ..old(self)@ }),
    {
        if self.state == ConnectionState::Ready {
            self.state = ConnectionState::Active;
        }
    }

    fn greeted(&self) -> (greeted: bool)
        ensures
            greeted == is_greeted(self@.state),
    {
        self.state == ConnectionState::Authenticating || self.state == ConnectionState::Ready
            || self.state == ConnectionState::Active
    }

    fn live(&self) -> (live: bool)
        ensures
            live == is_live(self@.state),
    {
        self.state == ConnectionState::AwaitingHello || self.greeted()
    }

    fn record(&mut self, sequence: Option<u64>) -> (actions: Vec<ConnectionAction>)
        ensures
            (final(self)@, actions@) == after_dispatch(old(self)@, sequence),
    {
        match self.session.record_dispatch(sequence) {
            SequenceOutcome::Regression { last_seen, received } => two(
                ConnectionAction::ReportRegression { last_seen, received },
                ConnectionAction::Forward,
            ),
            _ => one(ConnectionAction::Forward),
        }
    }

    /// Takes an event and answers with what is to be done, in order.
    pub fn handle(&mut self, event: ConnectionEvent, clock: Clock) -> (actions: Vec<
        ConnectionAction,
    >)
        ensures
            (final(self)@, actions@) == step(old(self)@, event@, clock),
    {
        match event {
            ConnectionEvent::Connect => {
                if self.state == ConnectionState::Disconnected {
                    if self.fresh_identify {
                        self.session.clear();
                    }
                    self.state = ConnectionState::Connecting;
                    self.attempts = 0;
                    self.fresh_identify = false;
                    self.failure = None;
                    one(ConnectionAction::OpenSocket)
                } else {
                    Vec::new()
                }
            },
            ConnectionEvent::Opened => {
                if self.state == ConnectionState::Connecting {
                    self.state = ConnectionState::AwaitingHello;
                }
                Vec::new()
            },
            ConnectionEvent::TransportFailed => self.drop_socket(None, clock),
            ConnectionEvent::HandshakeTimedOut => {
                if self.state == ConnectionState::AwaitingHello || self.state
                    == ConnectionState::Authenticating {
                    self.lose(DisconnectClass::Resumable, None, clock)
                } else {
                    Vec::new()
                }
            },
            ConnectionEvent::Closed => self.drop_socket(None, clock),
            ConnectionEvent::Hello { heartbeat_interval_ms } => {
                if self.state == ConnectionState::AwaitingHello {
                    let jitter = clamp_jitter(clock.jitter_ppm);
                    match HeartbeatScheduler::new(heartbeat_interval_ms, jitter) {
                        Some(scheduler) => {
                            let mut scheduler = scheduler;
                            scheduler.arm(clock.now_ms);
                            self.heartbeat = Some(scheduler);
                        },
                        None => {},
                    }
                    self.state = ConnectionState::Authenticating;
                    match self.handshake() {
                        Handshake::Resume => one(ConnectionAction::SendResume),
                        Handshake::Identify => one(ConnectionAction::SendIdentify),
                    }
                } else {
                    Vec::new()
                }
            },
            ConnectionEvent::Ready { session_id, resume_gateway_url, sequence } => {
                if self.state == ConnectionState::Authenticating {
                    self.session.establish(session_id, resume_gateway_url);
                    let _ = self.session.record_dispatch(sequence);
                    self.state = ConnectionState::Ready;
                    self.attempts = 0;
                    one(ConnectionAction::Forward)
                } else {
                    Vec::new()
                }
            },
            ConnectionEvent::Resumed { sequence } => {
                if self.state == ConnectionState::Authenticating {
                    let _ = self.session.record_dispatch(sequence);
                    self.state = ConnectionState::Ready;
                    self.attempts = 0;
                    one(ConnectionAction::Forward)
                } else {
                    Vec::new()
                }
            },
            ConnectionEvent::Dispatch { sequence } => {
                if self.greeted() {
                    self.settle();
                    self.record(sequence)
                } else {
                    Vec::new()
                }
            },
            ConnectionEvent::HeartbeatRequested => {
                if self.greeted() {
                    self.settle();
                    one(ConnectionAction::SendHeartbeat { sequence: self.session.sequence })
                } else {
                    Vec::new()
                }
            },
            ConnectionEvent::HeartbeatAck => {
                if self.greeted() {
                    match self.heartbeat {
                        Some(scheduler) => {
                            let mut scheduler = scheduler;
                            let _ = scheduler.acknowledge(clock.now_ms);
                            self.heartbeat = Some(scheduler);
                            self.settle();
                        },
                        None => {},
                    }
                }
                Vec::new()
            },
            ConnectionEvent::ReconnectRequested => {
                if self.live() {
                    self.lose(DisconnectClass::Resumable, None, clock)
                } else {
                    Vec::new()
                }
            },
            ConnectionEvent::InvalidSession { resumable } => {
                if self.live() {
                    let class = if resumable {
                        DisconnectClass::Resumable
                    } else {
                        DisconnectClass::Fresh
                    };
                    self.lose(class, None, clock)
                } else {
                    Vec::new()
                }
            },
            ConnectionEvent::Failure { error, closing } => {
                if closing {
                    self.drop_socket(Some(error), clock)
                } else if self.live() {
                    one(ConnectionAction::Report { error })
                } else {
                    Vec::new()
                }
            },
            ConnectionEvent::Malformed => {
                if self.live() {
                    one(ConnectionAction::Report { error: GatewayError::Decode })
                } else {
                    Vec::new()
                }
            },
            ConnectionEvent::Transport => Vec::new(),
            ConnectionEvent::Tick => {
                if self.greeted() {
                    match self.heartbeat {
                        Some(scheduler) => {
                            let mut scheduler = scheduler;
                            match scheduler.poll(clock.now_ms, self.session.sequence) {
                                HeartbeatAction::Wait => Vec::new(),
                                HeartbeatAction::Beat { sequence } => {
                                    self.heartbeat = Some(scheduler);
                                    one(ConnectionAction::SendHeartbeat { sequence })
                                },
                                HeartbeatAction::Zombie => self.lose(
                                    DisconnectClass::Resumable,
                                    None,
                                    clock,
                                ),
                            }
                        },
                        None => Vec::new(),
                    }
                } else {
                    Vec::new()
                }
            },
            ConnectionEvent::RetryDue => {
                if self.state == ConnectionState::Reconnecting {
                    if self.fresh_identify {
                        self.session.clear();
                    }
                    self.fresh_identify = false;
                    self.state = ConnectionState::Connecting;
                    one(ConnectionAction::OpenSocket)
                } else {
                    Vec::new()
                }
            },
            ConnectionEvent::Disconnect => {
                if self.live() {
                    self.state = ConnectionState::Closing;
                    self.heartbeat = None;
                    one(ConnectionAction::CloseSocket)
                } else if self.state == ConnectionState::Connecting {
                    self.state = ConnectionState::Disconnected;
                    self.heartbeat = None;
                    one(ConnectionAction::CloseSocket)
                } else if self.state == ConnectionState::Reconnecting {
                    self.state = ConnectionState::Disconnected;
                    Vec::new()
                } else {
                    Vec::new()
                }
            },
        }
    }
}

/// Whether an event may change what the session remembers: the three that
/// carry a sequence number, the two that open a socket, and a close frame
/// that names a failure.
pub open spec fn touches_session(event: EventView) -> bool {
    event is Ready || event is Resumed || event is Dispatch || event is RetryDue || event is Connect
        || (event is Failure && event->closing)
}

/// Every other event leaves the session as it is. Among them are the
/// resumable disconnects: a lost or closed socket, a handshake that timed
/// out, a request to reconnect, an invalid session, and a zombie found by a
/// tick.
pub proof fn lemma_session_kept(view: ConnectionView, event: EventView, clock: Clock)
    requires
        !touches_session(event),
    ensures
        step(view, event, clock).0.session == view.session,
{
}

/// A close frame that names a failure which is not fatal leaves the session
/// as it is, in every state. Where the failure calls for a fresh identify,
/// the session is forgotten only when the next socket is opened.
pub proof fn lemma_resumable_close_keeps_session(
    view: ConnectionView,
    error: GatewayError,
    clock: Clock,
)
    requires
        disconnect_class(Some(error)) != DisconnectClass::Fatal,
    ensures
        step(view, EventView::Failure { error, closing: true }, clock).0.session == view.session,
{
}

/// A close frame that names a fatal failure, on a connection that has or is
/// opening a socket, forgets the session and gives the connection up: it is
/// disconnected, the failure is surfaced, and no retry is scheduled.
pub proof fn lemma_fatal_close_clears_session(
    view: ConnectionView,
    error: GatewayError,
    clock: Clock,
)
    requires
        disconnect_class(Some(error)) == DisconnectClass::Fatal,
        is_live(view.state) || view.state == ConnectionState::Connecting,
    ensures
        ({
            let (next, actions) = step(view, EventView::Failure { error, closing: true }, clock);
            &&& next.session == empty_session()
            &&& next.state == ConnectionState::Disconnected
            &&& next.failure == Some(Failure::Protocol(error))
            &&& actions == seq![
                ConnectionAction::CloseSocket,
                ConnectionAction::Surface { failure: Failure::Protocol(error) },
            ]
        }),
{
}

/// A disconnected connection stays disconnected, and nothing is done, until
/// the caller asks to connect.
pub proof fn lemma_disconnected_is_terminal(view: ConnectionView, event: EventView, clock: Clock)
    requires
        view.state == ConnectionState::Disconnected,
        !(event is Connect),
    ensures
        step(view, event, clock) == unmoved(view),
{
}

/// The sequence number never moves backward: after any event it is either
/// forgotten together with the session or at least what it was.
pub proof fn lemma_sequence_never_regresses(view: ConnectionView, event: EventView, clock: Clock)
    requires
        view.session.sequence is Some,
    ensures
        ({
            let next = step(view, event, clock).0;
            next.session == empty_session() || (next.session.sequence is Some
                && next.session.sequence->0 >= view.session.sequence->0)
        }),
{
}

/// A failure named in a frame that is not a close frame never changes the
/// connection: it is reported and nothing else happens.
pub proof fn lemma_live_failure_only_reported(
    view: ConnectionView,
    error: GatewayError,
    clock: Clock,
)
    ensures
        step(view, EventView::Failure { error, closing: false }, clock).0 == view,
{
}

/// On the greeting, a resume is sent exactly when a session identifier is
/// remembered, and an identify otherwise.
pub proof fn lemma_greeting_answer(view: ConnectionView, interval_ms: u64, clock: Clock)
    requires
        view.state == ConnectionState::AwaitingHello,
    ensures
        step(view, EventView::Hello { heartbeat_interval_ms: interval_ms }, clock).1 == (
            if view.session.session_id is Some {
                seq![ConnectionAction::SendResume]
            } else {
                seq![ConnectionAction::SendIdentify]
            }
        ),
{
}

/// No more retries are scheduled in a row than the policy allows: a retry is
/// scheduled only while fewer were made, and each one counts.
pub proof fn lemma_retries_bounded(view: ConnectionView, event: EventView, clock: Clock)
    ensures
        ({
            let (next, actions) = step(view, event, clock);
            (exists|i: int| 0 <= i < actions.len() && actions[i] is ScheduleRetry) ==> view.attempts
                < view.policy.max_attempts && next.attempts == view.attempts + 1 && next.state
                == ConnectionState::Reconnecting
        }),
{
}

/// Opening a socket keeps the session after a resumable disconnect and
/// starts without one after a disconnect that called for a fresh identify,
/// whether the socket is opened by a retry or by the caller.
pub proof fn lemma_opening_decides_resumption(view: ConnectionView, clock: Clock)
    ensures
        view.state == ConnectionState::Reconnecting ==> ({
            let next = step(view, EventView::RetryDue, clock).0;
            next.session == session_for_connect(view) && !next.fresh_identify
        }),
        view.state == ConnectionState::Disconnected ==> ({
            let next = step(view, EventView::Connect, clock).0;
            next.session == session_for_connect(view) && !next.fresh_identify
        }),
{
}

} // verus!
