//! From a frame to the event that the connection state machine takes.

use vstd::prelude::*;

use crate::errors::GatewayError;
use crate::gateway::connection::{ConnectionEvent, EventView};
use crate::gateway::message::{FrameKind, FrameKindView, GatewayMessage, RawFrame};
use crate::gateway::payload::{
    json_members, parse_members, read_string_member, read_u64_member,
    string_member, u64_member, GatewayReceivePayload, Member, PayloadView,
    GATEWAY_DISPATCH, GATEWAY_HEARTBEAT, GATEWAY_HEARTBEAT_ACK, GATEWAY_HELLO,
    GATEWAY_INVALID_SESSION, GATEWAY_RECONNECT,
};
use crate::gateway::text::text_view;

verus! {

/// The event that a greeting with this data body is: the body must be a JSON
/// object whose `heartbeat_interval` is an unsigned integer.
pub open spec fn hello_event(data: Option<Seq<char>>) -> EventView {
    if data is Some && json_members(data->0) is Some {
        match u64_member(json_members(data->0)->0, "heartbeat_interval"@) {
            Member::Valid(interval) => EventView::Hello { heartbeat_interval_ms: interval },
            _ => EventView::Malformed,
        }
    } else {
        EventView::Malformed
    }
}

/// The event that a session confirmation with this data body is: the body
/// must be a JSON object whose `session_id` is a string and whose
/// `resume_gateway_url`, if it has one, is a string too.
pub open spec fn ready_event(data: Option<Seq<char>>, sequence: Option<u64>) -> EventView {
    if data is Some && json_members(data->0) is Some {
        let members = json_members(data->0)->0;
        match (string_member(members, "session_id"@), string_member(members, "resume_gateway_url"@)) {
            (Member::Valid(session_id), Member::Valid(url)) => EventView::Ready {
                session_id,
                resume_gateway_url: Some(url),
                sequence,
            },
            (Member::Valid(session_id), Member::Absent) => EventView::Ready {
                session_id,
                resume_gateway_url: None,
                sequence,
            },
            _ => EventView::Malformed,
        }
    } else {
        EventView::Malformed
    }
}

/// The event that an envelope is, by its opcode and, for a dispatched event,
/// by its name. An opcode that the client does not take is reported as an
/// unknown opcode.
pub open spec fn event_of_payload(payload: PayloadView) -> EventView {
    if payload.op_code == GATEWAY_DISPATCH {
        if payload.event_name == Some("READY"@) {
            ready_event(payload.event_data, payload.sequence_number)
        } else if payload.event_name == Some("RESUMED"@) {
            EventView::Resumed { sequence: payload.sequence_number }
        } else {
            EventView::Dispatch { sequence: payload.sequence_number }
        }
    } else if payload.op_code == GATEWAY_HEARTBEAT {
        EventView::HeartbeatRequested
    } else if payload.op_code == GATEWAY_RECONNECT {
        EventView::ReconnectRequested
    } else if payload.op_code == GATEWAY_INVALID_SESSION {
        EventView::InvalidSession { resumable: payload.event_data == Some("true"@) }
    } else if payload.op_code == GATEWAY_HELLO {
        hello_event(payload.event_data)
    } else if payload.op_code == GATEWAY_HEARTBEAT_ACK {
        EventView::HeartbeatAck
    } else {
        EventView::Failure { error: GatewayError::UnknownOpcode, closing: false }
    }
}

/// The event that a frame is. A frame that names a failure is that failure,
/// and closes the connection if it is a close frame. A close frame that
/// names none is a plain close; a ping or pong is the transport's own.
pub open spec fn event_of_frame(frame: GatewayMessage) -> EventView {
    match frame.spec_classify() {
        FrameKindView::Error(error) => EventView::Failure {
            error,
            closing: frame.message.is_close(),
        },
        FrameKindView::HeartbeatAck => EventView::HeartbeatAck,
        FrameKindView::Payload(payload) => event_of_payload(payload),
        FrameKindView::Malformed => if frame.message.is_close() {
            EventView::Closed
        } else if frame.message is Ping || frame.message is Pong {
            EventView::Transport
        } else {
            EventView::Malformed
        },
    }
}

/// Whether an optional text is this very text.
pub fn text_is(text: &Option<String>, wanted: &str) -> (same: bool)
    ensures
        same == (text_view(*text) == Some(wanted@)),
{
    match text {
        Some(text) => {
            let wanted: String = wanted.to_owned();
            *text == wanted
        },
        None => false,
    }
}

/// Reads a greeting.
pub fn read_hello(data: &Option<String>) -> (event: ConnectionEvent)
    ensures
        event@ == hello_event(text_view(*data)),
{
    match data {
        Some(text) => match parse_members(text.as_str()) {
            Ok(members) => match read_u64_member(&members, "heartbeat_interval") {
                Member::Valid(interval) => ConnectionEvent::Hello { heartbeat_interval_ms: interval },
                _ => ConnectionEvent::Malformed,
            },
            Err(_) => ConnectionEvent::Malformed,
        },
        None => ConnectionEvent::Malformed,
    }
}

/// Reads a session confirmation.
pub fn read_ready(data: &Option<String>, sequence: Option<u64>) -> (event: ConnectionEvent)
    ensures
        event@ == ready_event(text_view(*data), sequence),
{
    match data {
        Some(text) => match parse_members(text.as_str()) {
            Ok(members) => {
                let session_id = read_string_member(&members, "session_id");
                let url = read_string_member(&members, "resume_gateway_url");
                match (session_id, url) {
                    (Member::Valid(session_id), Member::Valid(url)) => ConnectionEvent::Ready {
                        session_id,
                        resume_gateway_url: Some(url),
                        sequence,
                    },
                    (Member::Valid(session_id), Member::Absent) => ConnectionEvent::Ready {
                        session_id,
                        resume_gateway_url: None,
                        sequence,
                    },
                    _ => ConnectionEvent::Malformed,
                }
            },
            Err(_) => ConnectionEvent::Malformed,
        },
        None => ConnectionEvent::Malformed,
    }
}

/// Turns an envelope into the event it is.
pub fn read_payload(payload: &GatewayReceivePayload) -> (event: ConnectionEvent)
    ensures
        event@ == event_of_payload(payload@),
{
    if payload.op_code == GATEWAY_DISPATCH {
        if text_is(&payload.event_name, "READY") {
            read_ready(&payload.event_data, payload.sequence_number)
        } else if text_is(&payload.event_name, "RESUMED") {
            ConnectionEvent::Resumed { sequence: payload.sequence_number }
        } else {
            ConnectionEvent::Dispatch { sequence: payload.sequence_number }
        }
    } else if payload.op_code == GATEWAY_HEARTBEAT {
        ConnectionEvent::HeartbeatRequested
    } else if payload.op_code == GATEWAY_RECONNECT {
        ConnectionEvent::ReconnectRequested
    } else if payload.op_code == GATEWAY_INVALID_SESSION {
        ConnectionEvent::InvalidSession { resumable: text_is(&payload.event_data, "true") }
    } else if payload.op_code == GATEWAY_HELLO {
        read_hello(&payload.event_data)
    } else if payload.op_code == GATEWAY_HEARTBEAT_ACK {
        ConnectionEvent::HeartbeatAck
    } else {
        ConnectionEvent::Failure { error: GatewayError::UnknownOpcode, closing: false }
    }
}

/// Turns a frame into the event it is.
pub fn read_frame(frame: &GatewayMessage) -> (event: ConnectionEvent)
    ensures
        event@ == event_of_frame(*frame),
{
    let closing = match &frame.message {
        RawFrame::Close(_) => true,
        _ => false,
    };
    match frame.classify() {
        FrameKind::Error(error) => ConnectionEvent::Failure { error, closing },
        FrameKind::HeartbeatAck => ConnectionEvent::HeartbeatAck,
        FrameKind::Payload(payload) => read_payload(&payload),
        FrameKind::Malformed => {
            if closing {
                ConnectionEvent::Closed
            } else {
                match &frame.message {
                    RawFrame::Ping(_) => ConnectionEvent::Transport,
                    RawFrame::Pong(_) => ConnectionEvent::Transport,
                    _ => ConnectionEvent::Malformed,
                }
            }
        },
    }
}

/// A frame that is no text frame never becomes a dispatched event, a
/// greeting or a session confirmation, whatever it holds.
pub proof fn lemma_only_text_carries_events(frame: GatewayMessage)
    requires
        !frame.message.is_text(),
    ensures
        !(event_of_frame(frame) is Dispatch),
        !(event_of_frame(frame) is Ready),
        !(event_of_frame(frame) is Resumed),
        !(event_of_frame(frame) is Hello),
        !(event_of_frame(frame) is HeartbeatAck),
{
}

} // verus!
