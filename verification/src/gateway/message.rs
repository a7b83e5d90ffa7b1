//! Frames as they arrive from the socket, and their classification.

use tokio_tungstenite::tungstenite::Message;
use vstd::prelude::*;
use vstd::utf8::*;

use crate::errors::GatewayError;
use crate::gateway::error_table::{
    error_for_key, error_table, lemma_entry_resolves, lemma_table_keys, lookup_error,
};
use crate::gateway::payload::{
    decode_envelope, decoded_view, envelope_of_text, GatewayReceivePayload, PayloadError,
    PayloadView, GATEWAY_HEARTBEAT_ACK,
};
use crate::gateway::text::{
    lemma_spelled_key, normalized, spells, to_lowercase, trim_trailing_periods, utf8_text,
};

verus! {

/// The body of a close frame: the numeric close code and the reason text.
#[derive(Clone, Debug, PartialEq, Eq)]
pub struct CloseFrame {
    pub code: u16,
    pub reason: String,
}

/// One transport frame, as plain data.
#[derive(Clone, Debug, PartialEq, Eq)]
pub enum RawFrame {
    /// A text frame.
    Text(String),
    /// A binary frame.
    Binary(Vec<u8>),
    /// A ping with its payload.
    Ping(Vec<u8>),
    /// A pong with its payload.
    Pong(Vec<u8>),
    /// A close frame, with its body if it has one.
    Close(Option<CloseFrame>),
    /// The payload of a frame that was handed over undecoded. The transport
    /// never yields one while reading.
    Raw(Vec<u8>),
}

impl RawFrame {
    /// The bytes a frame carries, for the kinds that carry bytes.
    pub open spec fn bytes(&self) -> Option<Seq<u8>> {
        match self {
            RawFrame::Binary(data) => Some(data@),
            RawFrame::Ping(data) => Some(data@),
            RawFrame::Pong(data) => Some(data@),
            RawFrame::Raw(data) => Some(data@),
            _ => None,
        }
    }

    /// The textual content of a frame: the text of a text frame, the reason
    /// of a close frame (empty where it has no body), and for the other kinds
    /// the text their bytes encode, if they are well-formed UTF-8.
    pub open spec fn text(&self) -> Option<Seq<char>> {
        match self {
            RawFrame::Text(text) => Some(text@),
            RawFrame::Close(None) => Some(Seq::<char>::empty()),
            RawFrame::Close(Some(close)) => Some(close.reason@),
            _ => if valid_utf8(self.bytes()->0) {
                Some(decode_utf8(self.bytes()->0))
            } else {
                None
            },
        }
    }

    pub open spec fn is_text(&self) -> bool {
        self is Text
    }

    pub open spec fn is_close(&self) -> bool {
        self is Close
    }

    /// The textual content of the frame, where it has one.
    pub fn text_content(&self) -> (content: Option<&str>)
        ensures
            content is Some <==> self.text() is Some,
            content is Some ==> content->0@ == self.text()->0,
    {
        match self {
            RawFrame::Text(text) => Some(text.as_str()),
            RawFrame::Close(None) => {
                let empty: &str = "";
                proof {
                    reveal_strlit("");
                    assert(empty@ =~= Seq::<char>::empty());
                }
                Some(empty)
            },
            RawFrame::Close(Some(close)) => Some(close.reason.as_str()),
            RawFrame::Binary(data) => utf8_text(data.as_slice()),
            RawFrame::Ping(data) => utf8_text(data.as_slice()),
            RawFrame::Pong(data) => utf8_text(data.as_slice()),
            RawFrame::Raw(data) => utf8_text(data.as_slice()),
        }
    }
}

/// What a frame turned out to be.
#[derive(Clone, Debug, PartialEq, Eq)]
pub enum FrameKind {
    /// The announcement of a failure.
    Error(GatewayError),
    /// The acknowledgment of a heartbeat.
    HeartbeatAck,
    /// An event envelope.
    Payload(GatewayReceivePayload),
    /// Neither a known failure nor an envelope.
    Malformed,
}

/// The mathematical content of a classification.
pub ghost enum FrameKindView {
    Error(GatewayError),
    HeartbeatAck,
    Payload(PayloadView),
    Malformed,
}

impl View for FrameKind {
    type V = FrameKindView;

    open spec fn view(&self) -> FrameKindView {
        match self {
            FrameKind::Error(error) => FrameKindView::Error(*error),
            FrameKind::HeartbeatAck => FrameKindView::HeartbeatAck,
            FrameKind::Payload(payload) => FrameKindView::Payload(payload@),
            FrameKind::Malformed => FrameKindView::Malformed,
        }
    }
}

/// Makes the message type of `tokio_tungstenite` known, as a value that is
/// passed on unread.
#[verifier::external_type_specification]
#[verifier::external_body]
pub struct ExMessage(Message);

/// A frame received from the gateway. It is either an event payload or the
/// announcement of a failure.
#[derive(Clone, Debug)]
pub struct GatewayMessage {
    /// The frame we received from the server.
    pub message: RawFrame,
}

impl GatewayMessage {
    /// Wraps a frame.
    pub fn new(message: RawFrame) -> (wrapped: Self)
        ensures
            wrapped.message == message,
    {
        GatewayMessage { message }
    }

    /// Takes over a message of `tokio_tungstenite`, variant for variant. Of a
    /// close frame the code and the reason are kept, of a raw frame
    /// (`Message::Frame`) the payload. The message is opaque to the
    /// verifier, so nothing is claimed of the frame that comes out.
    #[verifier::external_body]
    pub fn from_tungstenite_message(message: Message) -> Self {
        let frame = match message {
            Message::Text(text) => RawFrame::Text(text),
            Message::Binary(data) => RawFrame::Binary(data),
            Message::Ping(data) => RawFrame::Ping(data),
            Message::Pong(data) => RawFrame::Pong(data),
            Message::Close(None) => RawFrame::Close(None),
            Message::Close(Some(close)) => RawFrame::Close(
                Some(CloseFrame { code: close.code.into(), reason: close.reason.into_owned() }),
            ),
            Message::Frame(frame) => RawFrame::Raw(frame.into_data()),
        };
        GatewayMessage { message: frame }
    }

    /// The failure this frame announces: the entry of the table under the
    /// normalised content, if there is content and the table lists it.
    pub open spec fn spec_error(&self) -> Option<GatewayError> {
        match self.message.text() {
            Some(content) => error_for_key(normalized(content)),
            None => None,
        }
    }

    /// Reads the frame as the announcement of a failure. Returns the failure
    /// if the content names one, `None` if it does not.
    ///
    /// Content that spells the key of a table entry, in any mix of cases and
    /// with or without periods behind it, yields the failure of that entry.
    pub fn error(&self) -> (found: Option<GatewayError>)
        ensures
            found == self.spec_error(),
            forall|index: int|
                0 <= index < error_table().len() && self.message.text() is Some && spells(
                    self.message.text()->0,
                    (#[trigger] error_table()[index]).0,
                ) ==> found == Some(error_table()[index].1),
    {
        match self.message.text_content() {
            None => None,
            Some(content) => {
                // Some error strings have periods on the end, which we don't care about
                let lowered = to_lowercase(content);
                let key = trim_trailing_periods(lowered.as_str());
                let found = lookup_error(key);
                proof {
                    assert forall|index: int|
                        0 <= index < error_table().len() && spells(
                            content@,
                            (#[trigger] error_table()[index]).0,
                        ) implies found == Some(error_table()[index].1) by {
                        lemma_table_keys();
                        lemma_spelled_key(content@, error_table()[index].0);
                        lemma_entry_resolves(index);
                    }
                }
                found
            },
        }
    }

    /// Returns whether or not the frame announces a failure.
    pub fn is_error(&self) -> (announces: bool)
        ensures
            announces == self.spec_error() is Some,
            (exists|index: int|
                0 <= index < error_table().len() && self.message.text() is Some && spells(
                    self.message.text()->0,
                    (#[trigger] error_table()[index]).0,
                )) ==> announces,
    {
        self.error().is_some()
    }

    /// Whether the frame has no content: an empty text, no bytes, or a close
    /// frame without a reason. An undecoded frame always has its header.
    pub open spec fn spec_is_empty(&self) -> bool {
        match self.message {
            RawFrame::Text(text) => text@.len() == 0,
            RawFrame::Binary(data) => data@.len() == 0,
            RawFrame::Ping(data) => data@.len() == 0,
            RawFrame::Pong(data) => data@.len() == 0,
            RawFrame::Close(None) => true,
            RawFrame::Close(Some(close)) => close.reason@.len() == 0,
            RawFrame::Raw(_) => false,
        }
    }

    /// Returns whether or not the frame is empty.
    pub fn is_empty(&self) -> (empty: bool)
        ensures
            empty == self.spec_is_empty(),
    {
        match &self.message {
            RawFrame::Text(text) => text.as_str().is_empty(),
            RawFrame::Binary(data) => data.len() == 0,
            RawFrame::Ping(data) => data.len() == 0,
            RawFrame::Pong(data) => data.len() == 0,
            RawFrame::Close(None) => true,
            RawFrame::Close(Some(close)) => close.reason.as_str().is_empty(),
            RawFrame::Raw(_) => false,
        }
    }

    /// The envelope this frame holds, or the reason it holds none.
    pub open spec fn spec_payload(&self) -> Result<PayloadView, PayloadError> {
        match self.message.text() {
            Some(content) => envelope_of_text(content),
            None => Err(PayloadError::NoText),
        }
    }

    /// Reads the frame as an envelope.
    pub fn payload(&self) -> (decoded: Result<GatewayReceivePayload, PayloadError>)
        ensures
            decoded_view(decoded) == self.spec_payload(),
    {
        match self.message.text_content() {
            Some(content) => decode_envelope(content),
            None => Err(PayloadError::NoText),
        }
    }

    /// Whether the frame is a text frame that holds an envelope.
    pub open spec fn spec_is_payload(&self) -> bool {
        self.message.is_text() && self.spec_payload() is Ok
    }

    /// Returns whether or not the frame is a payload. Close frames are never
    /// payloads, and payloads are only text frames, whatever else they hold.
    pub fn is_payload(&self) -> (holds: bool)
        ensures
            holds == self.spec_is_payload(),
            !self.message.is_text() ==> !holds,
            self.message.is_close() ==> !holds,
    {
        match &self.message {
            RawFrame::Text(_) => self.payload().is_ok(),
            _ => false,
        }
    }

    /// What the frame is: a failure if its content names one; else, for a
    /// text frame that holds an envelope, the acknowledgment of a heartbeat
    /// or the envelope itself; else malformed.
    pub open spec fn spec_classify(&self) -> FrameKindView {
        match self.spec_error() {
            Some(error) => FrameKindView::Error(error),
            None => if self.spec_is_payload() {
                let payload = self.spec_payload()->Ok_0;
                if payload.op_code == GATEWAY_HEARTBEAT_ACK {
                    FrameKindView::HeartbeatAck
                } else {
                    FrameKindView::Payload(payload)
                }
            } else {
                FrameKindView::Malformed
            },
        }
    }

    /// Classifies the frame.
    ///
    /// A frame whose content spells the key of a table entry, in any mix of
    /// cases and with or without periods behind it, is the failure of that
    /// entry. A frame that is no text frame is never a payload or the
    /// acknowledgment of a heartbeat.
    pub fn classify(&self) -> (kind: FrameKind)
        ensures
            kind@ == self.spec_classify(),
            forall|index: int|
                0 <= index < error_table().len() && self.message.text() is Some && spells(
                    self.message.text()->0,
                    (#[trigger] error_table()[index]).0,
                ) ==> kind == FrameKind::Error(error_table()[index].1),
            !self.message.is_text() ==> !(kind is Payload) && !(kind is HeartbeatAck),
    {
        match self.error() {
            Some(error) => FrameKind::Error(error),
            None => match &self.message {
                RawFrame::Text(_) => match self.payload() {
                    Ok(payload) => {
                        if payload.op_code == GATEWAY_HEARTBEAT_ACK {
                            FrameKind::HeartbeatAck
                        } else {
                            FrameKind::Payload(payload)
                        }
                    },
                    Err(_) => FrameKind::Malformed,
                },
                _ => FrameKind::Malformed,
            },
        }
    }
}

} // verus!
