use chorus::errors::GatewayError;
use chorus::gateway::backoff::{clamp_jitter, RetryPolicy};
use chorus::gateway::connection::{
    classify_disconnect, Clock, Connection, ConnectionAction, ConnectionEvent, ConnectionState,
    DisconnectClass, Failure, Handshake,
};
use chorus::gateway::inbound::read_frame;
use chorus::gateway::message::{CloseFrame, GatewayMessage, RawFrame};
use chorus::gateway::session::SessionState;

const POLICY: RetryPolicy = RetryPolicy { base_delay_ms: 1_000, max_delay_ms: 60_000, max_attempts: 3 };

fn at(now_ms: u64) -> Clock {
    Clock { now_ms, jitter_ppm: 1_000_000 }
}

fn close(reason: &str) -> GatewayMessage {
    GatewayMessage::new(RawFrame::Close(Some(CloseFrame {
        code: 1000,
        reason: reason.to_string(),
    })))
}

fn text(content: &str) -> GatewayMessage {
    GatewayMessage::new(RawFrame::Text(content.to_string()))
}

/// A connection in the steady state, with session `abc` and sequence 12.
fn active() -> Connection {
    let mut connection = Connection::new(POLICY);
    assert_eq!(connection.handle(ConnectionEvent::Connect, at(0)), vec![ConnectionAction::OpenSocket]);
    assert_eq!(connection.handle(ConnectionEvent::Opened, at(1)), vec![]);
    assert_eq!(
        connection.handle(ConnectionEvent::Hello { heartbeat_interval_ms: 41_250 }, at(2)),
        vec![ConnectionAction::SendIdentify]
    );
    assert_eq!(
        connection.handle(
            ConnectionEvent::Ready {
                session_id: "abc".to_string(),
                resume_gateway_url: Some("wss://resume".to_string()),
                sequence: Some(1),
            },
            at(3)
        ),
        vec![ConnectionAction::Forward]
    );
    assert_eq!(connection.state(), ConnectionState::Ready);
    assert_eq!(
        connection.handle(ConnectionEvent::Dispatch { sequence: Some(12) }, at(4)),
        vec![ConnectionAction::Forward]
    );
    assert_eq!(connection.state(), ConnectionState::Active);
    connection
}

fn session_abc(sequence: u64) -> SessionState {
    SessionState {
        session_id: Some("abc".to_string()),
        sequence: Some(sequence),
        resume_gateway_url: Some("wss://resume".to_string()),
    }
}

#[test]
fn new_connection_is_disconnected_and_empty() {
    let connection = Connection::new(POLICY);
    assert_eq!(connection.state(), ConnectionState::Disconnected);
    assert_eq!(connection.failure(), None);
    assert_eq!(connection.current_session_snapshot(), SessionState::new());
    assert_eq!(connection.handshake(), Handshake::Identify);
    assert_eq!(connection.heartbeat_deadline(), None);
}

#[test]
fn handshake_walks_through_the_states() {
    let mut connection = Connection::new(POLICY);
    connection.handle(ConnectionEvent::Connect, at(0));
    assert_eq!(connection.state(), ConnectionState::Connecting);
    connection.handle(ConnectionEvent::Opened, at(1));
    assert_eq!(connection.state(), ConnectionState::AwaitingHello);
    let hello = read_frame(&text("{\"op\":10,\"d\":{\"heartbeat_interval\":41250}}"));
    assert_eq!(hello, ConnectionEvent::Hello { heartbeat_interval_ms: 41_250 });
    let clock = Clock { now_ms: 100, jitter_ppm: 500_000 };
    assert_eq!(connection.handle(hello, clock), vec![ConnectionAction::SendIdentify]);
    assert_eq!(connection.state(), ConnectionState::Authenticating);
    assert_eq!(connection.heartbeat_deadline(), Some(100 + 20_625));
    let ready = read_frame(&text(
        "{\"op\":0,\"s\":1,\"t\":\"READY\",\"d\":{\"session_id\":\"abc\",\"resume_gateway_url\":\"wss://resume\"}}",
    ));
    assert_eq!(connection.handle(ready, at(200)), vec![ConnectionAction::Forward]);
    assert_eq!(connection.state(), ConnectionState::Ready);
    assert_eq!(connection.current_session_snapshot(), session_abc(1));
    assert_eq!(connection.handshake(), Handshake::Resume);
}

#[test]
fn rate_limited_close_reconnects_with_the_session_still_there() {
    let mut connection = active();
    let frame = close("Rate limited.");
    assert_eq!(frame.error(), Some(GatewayError::RateLimited));
    let event = read_frame(&frame);
    assert_eq!(event, ConnectionEvent::Failure { error: GatewayError::RateLimited, closing: true });
    let actions = connection.handle(event, Clock { now_ms: 10, jitter_ppm: 0 });
    assert_eq!(
        actions,
        vec![ConnectionAction::CloseSocket, ConnectionAction::ScheduleRetry { delay_ms: 500 }]
    );
    assert_eq!(connection.state(), ConnectionState::Reconnecting);
    assert_eq!(connection.failure(), None);
    assert_eq!(connection.current_session_snapshot(), session_abc(12));
    assert_eq!(connection.heartbeat_deadline(), None);
}

#[test]
fn rate_limited_retry_starts_with_a_fresh_identify() {
    let mut connection = active();
    connection.handle(read_frame(&close("4008")), at(10));
    assert_eq!(connection.handle(ConnectionEvent::RetryDue, at(20)), vec![ConnectionAction::OpenSocket]);
    assert_eq!(connection.state(), ConnectionState::Connecting);
    assert_eq!(connection.current_session_snapshot(), SessionState::new());
    connection.handle(ConnectionEvent::Opened, at(21));
    assert_eq!(
        connection.handle(ConnectionEvent::Hello { heartbeat_interval_ms: 1_000 }, at(22)),
        vec![ConnectionAction::SendIdentify]
    );
}

#[test]
fn authentication_failure_is_terminal() {
    let mut connection = active();
    let frame = close("4004");
    assert_eq!(frame.error(), Some(GatewayError::AuthenticationFailed));
    let actions = connection.handle(read_frame(&frame), at(10));
    assert_eq!(
        actions,
        vec![
            ConnectionAction::CloseSocket,
            ConnectionAction::Surface {
                failure: Failure::Protocol(GatewayError::AuthenticationFailed)
            },
        ]
    );
    assert_eq!(connection.state(), ConnectionState::Disconnected);
    assert_eq!(connection.failure(), Some(Failure::Protocol(GatewayError::AuthenticationFailed)));
    assert_eq!(connection.current_session_snapshot(), SessionState::new());
    assert_eq!(connection.heartbeat_deadline(), None);
    // Nothing but a new connect moves it.
    assert_eq!(connection.handle(ConnectionEvent::RetryDue, at(11)), vec![]);
    assert_eq!(connection.handle(ConnectionEvent::Tick, at(100_000)), vec![]);
    assert_eq!(connection.handle(ConnectionEvent::Opened, at(12)), vec![]);
    assert_eq!(connection.handle(ConnectionEvent::Closed, at(13)), vec![]);
    assert_eq!(connection.state(), ConnectionState::Disconnected);
    assert_eq!(connection.handle(ConnectionEvent::Connect, at(14)), vec![ConnectionAction::OpenSocket]);
    assert_eq!(connection.failure(), None);
}

#[test]
fn each_failure_has_its_disconnect_class() {
    for error in [
        GatewayError::AuthenticationFailed,
        GatewayError::InvalidIntents,
        GatewayError::DisallowedIntents,
        GatewayError::InvalidAPIVersion,
        GatewayError::InvalidShard,
        GatewayError::ShardingRequired,
    ] {
        assert_eq!(classify_disconnect(Some(error)), DisconnectClass::Fatal);
    }
    for error in [GatewayError::RateLimited, GatewayError::SessionTimedOut] {
        assert_eq!(classify_disconnect(Some(error)), DisconnectClass::Fresh);
    }
    for error in [
        GatewayError::Unknown,
        GatewayError::UnknownOpcode,
        GatewayError::Decode,
        GatewayError::NotAuthenticated,
        GatewayError::AlreadyAuthenticated,
        GatewayError::InvalidSequenceNumber,
    ] {
        assert_eq!(classify_disconnect(Some(error)), DisconnectClass::Resumable);
    }
    assert_eq!(classify_disconnect(None), DisconnectClass::Resumable);
}

#[test]
fn fatal_failures_clear_the_session_and_others_keep_it() {
    for error in [
        GatewayError::Unknown,
        GatewayError::UnknownOpcode,
        GatewayError::Decode,
        GatewayError::NotAuthenticated,
        GatewayError::AuthenticationFailed,
        GatewayError::AlreadyAuthenticated,
        GatewayError::InvalidSequenceNumber,
        GatewayError::RateLimited,
        GatewayError::SessionTimedOut,
        GatewayError::InvalidShard,
        GatewayError::ShardingRequired,
        GatewayError::InvalidAPIVersion,
        GatewayError::InvalidIntents,
        GatewayError::DisallowedIntents,
    ] {
        let mut connection = active();
        connection.handle(ConnectionEvent::Failure { error, closing: true }, at(10));
        if classify_disconnect(Some(error)) == DisconnectClass::Fatal {
            assert_eq!(connection.current_session_snapshot(), SessionState::new());
            assert_eq!(connection.state(), ConnectionState::Disconnected);
        } else {
            assert_eq!(connection.current_session_snapshot(), session_abc(12));
            assert_eq!(connection.state(), ConnectionState::Reconnecting);
        }
    }
}

#[test]
fn resumable_disconnect_resumes() {
    let mut connection = active();
    let actions = connection.handle(read_frame(&close("")), Clock { now_ms: 10, jitter_ppm: 500_000 });
    assert_eq!(
        actions,
        vec![ConnectionAction::CloseSocket, ConnectionAction::ScheduleRetry { delay_ms: 750 }]
    );
    assert_eq!(connection.current_session_snapshot(), session_abc(12));
    assert_eq!(connection.handle(ConnectionEvent::RetryDue, at(800)), vec![ConnectionAction::OpenSocket]);
    assert_eq!(connection.current_session_snapshot(), session_abc(12));
    connection.handle(ConnectionEvent::Opened, at(801));
    assert_eq!(
        connection.handle(ConnectionEvent::Hello { heartbeat_interval_ms: 41_250 }, at(802)),
        vec![ConnectionAction::SendResume]
    );
    // Missed events are replayed before the resumption is confirmed.
    assert_eq!(
        connection.handle(ConnectionEvent::Dispatch { sequence: Some(13) }, at(803)),
        vec![ConnectionAction::Forward]
    );
    assert_eq!(connection.state(), ConnectionState::Authenticating);
    assert_eq!(
        connection.handle(read_frame(&text("{\"op\":0,\"s\":14,\"t\":\"RESUMED\"}")), at(804)),
        vec![ConnectionAction::Forward]
    );
    assert_eq!(connection.state(), ConnectionState::Ready);
    assert_eq!(connection.current_session_snapshot(), session_abc(14));
}

#[test]
fn zombie_is_a_resumable_disconnect() {
    let mut connection = active();
    // The greeting came at 2 with a full jitter, so the first beat is due at 41252.
    assert_eq!(connection.heartbeat_deadline(), Some(41_252));
    assert_eq!(connection.handle(ConnectionEvent::Tick, at(41_251)), vec![]);
    assert_eq!(
        connection.handle(ConnectionEvent::Tick, at(41_252)),
        vec![ConnectionAction::SendHeartbeat { sequence: Some(12) }]
    );
    assert_eq!(connection.handle(ConnectionEvent::Tick, at(82_501)), vec![]);
    let actions = connection.handle(ConnectionEvent::Tick, Clock { now_ms: 82_502, jitter_ppm: 0 });
    assert_eq!(
        actions,
        vec![ConnectionAction::CloseSocket, ConnectionAction::ScheduleRetry { delay_ms: 500 }]
    );
    assert_eq!(connection.state(), ConnectionState::Reconnecting);
    assert_eq!(connection.current_session_snapshot(), session_abc(12));
    // No second signal for the same missed beat.
    assert_eq!(connection.handle(ConnectionEvent::Tick, at(200_000)), vec![]);
}

#[test]
fn acknowledged_heartbeats_keep_the_connection() {
    let mut connection = active();
    assert_eq!(
        connection.handle(ConnectionEvent::Tick, at(41_252)),
        vec![ConnectionAction::SendHeartbeat { sequence: Some(12) }]
    );
    assert_eq!(connection.handle(read_frame(&text("{\"op\":11}")), at(41_300)), vec![]);
    assert_eq!(connection.heartbeat_deadline(), Some(41_300 + 41_250));
    assert_eq!(connection.handle(ConnectionEvent::Tick, at(82_549)), vec![]);
    assert_eq!(
        connection.handle(ConnectionEvent::Tick, at(82_550)),
        vec![ConnectionAction::SendHeartbeat { sequence: Some(12) }]
    );
    assert_eq!(connection.state(), ConnectionState::Active);
}

#[test]
fn server_may_ask_for_a_heartbeat() {
    let mut connection = active();
    assert_eq!(
        connection.handle(read_frame(&text("{\"op\":1}")), at(10)),
        vec![ConnectionAction::SendHeartbeat { sequence: Some(12) }]
    );
    assert_eq!(connection.heartbeat_deadline(), Some(41_252));
}

#[test]
fn regression_in_a_dispatch_is_reported_and_the_sequence_stays() {
    let mut connection = active();
    assert_eq!(
        connection.handle(ConnectionEvent::Dispatch { sequence: Some(11) }, at(10)),
        vec![
            ConnectionAction::ReportRegression { last_seen: 12, received: 11 },
            ConnectionAction::Forward,
        ]
    );
    assert_eq!(connection.current_session_snapshot(), session_abc(12));
    assert_eq!(connection.state(), ConnectionState::Active);
}

#[test]
fn failures_outside_close_frames_are_only_reported() {
    let mut connection = active();
    for (content, error) in [
        ("Decode error", GatewayError::Decode),
        ("4001", GatewayError::UnknownOpcode),
        ("unknown error.", GatewayError::Unknown),
        ("4004", GatewayError::AuthenticationFailed),
    ] {
        assert_eq!(
            connection.handle(read_frame(&text(content)), at(10)),
            vec![ConnectionAction::Report { error }]
        );
        assert_eq!(connection.state(), ConnectionState::Active);
        assert_eq!(connection.current_session_snapshot(), session_abc(12));
    }
    assert_eq!(
        connection.handle(read_frame(&text("{\"op\":")), at(11)),
        vec![ConnectionAction::Report { error: GatewayError::Decode }]
    );
    assert_eq!(
        connection.handle(read_frame(&text("{\"op\":42}")), at(12)),
        vec![ConnectionAction::Report { error: GatewayError::UnknownOpcode }]
    );
    assert_eq!(connection.state(), ConnectionState::Active);
}

#[test]
fn retries_stop_at_the_ceiling() {
    let mut connection = active();
    let quiet = Clock { now_ms: 0, jitter_ppm: 1_000_000 };
    for (attempt, delay_ms) in [(0, 1_000u64), (1, 2_000), (2, 4_000)] {
        assert_eq!(
            connection.handle(ConnectionEvent::TransportFailed, quiet),
            vec![ConnectionAction::CloseSocket, ConnectionAction::ScheduleRetry { delay_ms }],
            "{attempt}"
        );
        assert_eq!(connection.handle(ConnectionEvent::RetryDue, quiet), vec![ConnectionAction::OpenSocket]);
    }
    assert_eq!(
        connection.handle(ConnectionEvent::TransportFailed, quiet),
        vec![
            ConnectionAction::CloseSocket,
            ConnectionAction::Surface { failure: Failure::RetriesExhausted },
        ]
    );
    assert_eq!(connection.state(), ConnectionState::Disconnected);
    assert_eq!(connection.failure(), Some(Failure::RetriesExhausted));
    assert_eq!(connection.handle(ConnectionEvent::RetryDue, quiet), vec![]);
}

#[test]
fn confirmed_session_resets_the_retry_count() {
    let mut connection = active();
    let quiet = Clock { now_ms: 0, jitter_ppm: 1_000_000 };
    connection.handle(ConnectionEvent::TransportFailed, quiet);
    connection.handle(ConnectionEvent::RetryDue, quiet);
    connection.handle(ConnectionEvent::Opened, quiet);
    connection.handle(ConnectionEvent::Hello { heartbeat_interval_ms: 1_000 }, quiet);
    connection.handle(ConnectionEvent::Resumed { sequence: None }, quiet);
    assert_eq!(
        connection.handle(ConnectionEvent::TransportFailed, quiet),
        vec![ConnectionAction::CloseSocket, ConnectionAction::ScheduleRetry { delay_ms: 1_000 }]
    );
}

#[test]
fn handshake_timeout_is_retried() {
    let mut connection = Connection::new(POLICY);
    connection.handle(ConnectionEvent::Connect, at(0));
    assert_eq!(connection.handle(ConnectionEvent::HandshakeTimedOut, at(1)), vec![]);
    connection.handle(ConnectionEvent::Opened, at(2));
    assert_eq!(
        connection.handle(ConnectionEvent::HandshakeTimedOut, at(3)),
        vec![ConnectionAction::CloseSocket, ConnectionAction::ScheduleRetry { delay_ms: 1_000 }]
    );
    assert_eq!(connection.state(), ConnectionState::Reconnecting);
}

#[test]
fn server_requests_to_reconnect_and_invalid_sessions() {
    let mut connection = active();
    assert_eq!(read_frame(&text("{\"op\":7}")), ConnectionEvent::ReconnectRequested);
    connection.handle(ConnectionEvent::ReconnectRequested, at(10));
    assert_eq!(connection.state(), ConnectionState::Reconnecting);
    connection.handle(ConnectionEvent::RetryDue, at(11));
    assert_eq!(connection.current_session_snapshot(), session_abc(12));

    let mut connection = active();
    assert_eq!(
        read_frame(&text("{\"op\":9,\"d\":true}")),
        ConnectionEvent::InvalidSession { resumable: true }
    );
    connection.handle(ConnectionEvent::InvalidSession { resumable: true }, at(10));
    connection.handle(ConnectionEvent::RetryDue, at(11));
    assert_eq!(connection.current_session_snapshot(), session_abc(12));

    let mut connection = active();
    assert_eq!(
        read_frame(&text("{\"op\":9,\"d\":false}")),
        ConnectionEvent::InvalidSession { resumable: false }
    );
    connection.handle(ConnectionEvent::InvalidSession { resumable: false }, at(10));
    assert_eq!(connection.current_session_snapshot(), session_abc(12));
    connection.handle(ConnectionEvent::RetryDue, at(11));
    assert_eq!(connection.current_session_snapshot(), SessionState::new());
}

#[test]
fn caller_disconnect_closes_without_retry() {
    let mut connection = active();
    assert_eq!(connection.handle(ConnectionEvent::Disconnect, at(10)), vec![ConnectionAction::CloseSocket]);
    assert_eq!(connection.state(), ConnectionState::Closing);
    assert_eq!(connection.heartbeat_deadline(), None);
    assert_eq!(connection.handle(ConnectionEvent::Tick, at(100_000)), vec![]);
    assert_eq!(connection.handle(ConnectionEvent::Dispatch { sequence: Some(99) }, at(11)), vec![]);
    assert_eq!(connection.handle(read_frame(&close("4004")), at(12)), vec![]);
    assert_eq!(connection.state(), ConnectionState::Disconnected);
    assert_eq!(connection.failure(), None);
    assert_eq!(connection.current_session_snapshot(), session_abc(12));

    let mut connection = Connection::new(POLICY);
    connection.handle(ConnectionEvent::Connect, at(0));
    assert_eq!(connection.handle(ConnectionEvent::Disconnect, at(1)), vec![ConnectionAction::CloseSocket]);
    assert_eq!(connection.state(), ConnectionState::Disconnected);

    let mut connection = active();
    connection.handle(ConnectionEvent::Closed, at(10));
    assert_eq!(connection.handle(ConnectionEvent::Disconnect, at(11)), vec![]);
    assert_eq!(connection.state(), ConnectionState::Disconnected);
    assert_eq!(connection.handle(ConnectionEvent::Disconnect, at(12)), vec![]);
}

#[test]
fn frames_become_events() {
    assert_eq!(
        read_frame(&text("{\"op\":0,\"s\":3,\"t\":\"MESSAGE_CREATE\",\"d\":{}}")),
        ConnectionEvent::Dispatch { sequence: Some(3) }
    );
    assert_eq!(
        read_frame(&text("{\"op\":0,\"s\":1,\"t\":\"READY\",\"d\":{\"session_id\":\"abc\"}}")),
        ConnectionEvent::Ready { session_id: "abc".to_string(), resume_gateway_url: None, sequence: Some(1) }
    );
    assert_eq!(
        read_frame(&text("{\"op\":0,\"s\":1,\"t\":\"READY\",\"d\":{\"session_id\":5}}")),
        ConnectionEvent::Malformed
    );
    assert_eq!(
        read_frame(&text("{\"op\":0,\"s\":1,\"t\":\"READY\",\"d\":{\"session_id\":\"abc\",\"resume_gateway_url\":5}}")),
        ConnectionEvent::Malformed
    );
    assert_eq!(read_frame(&text("{\"op\":0,\"s\":1,\"t\":\"READY\"}")), ConnectionEvent::Malformed);
    assert_eq!(read_frame(&text("{\"op\":10,\"d\":{}}")), ConnectionEvent::Malformed);
    assert_eq!(read_frame(&text("{\"op\":10,\"d\":7}")), ConnectionEvent::Malformed);
    assert_eq!(read_frame(&text("{\"op\":11}")), ConnectionEvent::HeartbeatAck);
    assert_eq!(read_frame(&text("{\"op\":1}")), ConnectionEvent::HeartbeatRequested);
    assert_eq!(
        read_frame(&text("{\"op\":2}")),
        ConnectionEvent::Failure { error: GatewayError::UnknownOpcode, closing: false }
    );
    assert_eq!(read_frame(&close("see you")), ConnectionEvent::Closed);
    assert_eq!(read_frame(&GatewayMessage::new(RawFrame::Close(None))), ConnectionEvent::Closed);
    assert_eq!(read_frame(&GatewayMessage::new(RawFrame::Ping(vec![1]))), ConnectionEvent::Transport);
    assert_eq!(read_frame(&GatewayMessage::new(RawFrame::Pong(vec![1]))), ConnectionEvent::Transport);
    assert_eq!(
        read_frame(&GatewayMessage::new(RawFrame::Binary(b"{\"op\":11}".to_vec()))),
        ConnectionEvent::Malformed
    );
    assert_eq!(
        read_frame(&text("Session timed out")),
        ConnectionEvent::Failure { error: GatewayError::SessionTimedOut, closing: false }
    );
}

#[test]
fn retry_delays_double_up_to_the_maximum() {
    let policy = RetryPolicy { base_delay_ms: 1_000, max_delay_ms: 60_000, max_attempts: 10 };
    let ceilings = [1_000u64, 2_000, 4_000, 8_000, 16_000, 32_000, 60_000, 60_000];
    for (attempt, ceiling) in ceilings.iter().enumerate() {
        assert_eq!(policy.ceiling(attempt as u32), *ceiling);
        assert_eq!(policy.delay(attempt as u32, 1_000_000), *ceiling);
        assert_eq!(policy.delay(attempt as u32, 0), *ceiling - *ceiling / 2);
    }
    assert_eq!(policy.delay(3, 250_000), 4_000 + 1_000);
    assert_eq!(policy.delay(3, 2_000_000), 8_000);
    assert_eq!(policy.ceiling(u32::MAX), 60_000);
    let steep = RetryPolicy { base_delay_ms: 90_000, max_delay_ms: 60_000, max_attempts: 1 };
    assert_eq!(steep.ceiling(0), 60_000);
    let odd = RetryPolicy { base_delay_ms: 5, max_delay_ms: 7, max_attempts: 1 };
    assert_eq!(odd.ceiling(0), 5);
    assert_eq!(odd.ceiling(1), 7);
    assert_eq!(odd.delay(0, 500_000), 3 + 1);
    let huge = RetryPolicy { base_delay_ms: u64::MAX, max_delay_ms: u64::MAX, max_attempts: 1 };
    assert_eq!(huge.delay(5, 1_000_000), u64::MAX);
    assert_eq!(clamp_jitter(7), 7);
    assert_eq!(clamp_jitter(1_000_001), 1_000_000);
}

#[test]
fn fresh_identify_outlasts_exhausted_retries() {
    let policy = RetryPolicy { base_delay_ms: 1_000, max_delay_ms: 60_000, max_attempts: 0 };
    let mut connection = Connection::new(policy);
    connection.handle(ConnectionEvent::Connect, at(0));
    connection.handle(ConnectionEvent::Opened, at(1));
    connection.handle(ConnectionEvent::Hello { heartbeat_interval_ms: 1_000 }, at(2));
    connection.handle(
        ConnectionEvent::Ready { session_id: "abc".to_string(), resume_gateway_url: None, sequence: Some(4) },
        at(3),
    );
    assert_eq!(
        connection.handle(
            ConnectionEvent::Failure { error: GatewayError::SessionTimedOut, closing: true },
            at(4)
        ),
        vec![
            ConnectionAction::CloseSocket,
            ConnectionAction::Surface { failure: Failure::RetriesExhausted },
        ]
    );
    assert_eq!(connection.state(), ConnectionState::Disconnected);
    assert!(connection.current_session_snapshot().session_id.is_some());
    connection.handle(ConnectionEvent::Connect, at(5));
    assert_eq!(connection.current_session_snapshot(), SessionState::new());

    let mut connection = Connection::new(policy);
    connection.handle(ConnectionEvent::Connect, at(0));
    connection.handle(ConnectionEvent::Opened, at(1));
    connection.handle(ConnectionEvent::Hello { heartbeat_interval_ms: 1_000 }, at(2));
    connection.handle(
        ConnectionEvent::Ready { session_id: "abc".to_string(), resume_gateway_url: None, sequence: Some(4) },
        at(3),
    );
    connection.handle(ConnectionEvent::Closed, at(4));
    assert_eq!(connection.failure(), Some(Failure::RetriesExhausted));
    connection.handle(ConnectionEvent::Connect, at(5));
    assert_eq!(connection.current_session_snapshot().session_id, Some("abc".to_string()));
    assert_eq!(connection.current_session_snapshot().sequence, Some(4));
}
