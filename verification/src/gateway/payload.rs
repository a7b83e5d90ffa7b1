//! The event envelope that text frames carry, and its decoding.
//!
//! An envelope is a JSON object with the members `op` (the opcode, required),
//! `s` (the sequence number), `t` (the event name) and `d` (the data body).
//! JSON syntax is left to `serde_json`; which members an envelope needs and
//! what they may hold is decided here.

use serde_json::value::RawValue;
use std::collections::BTreeMap;
use vstd::prelude::*;

use crate::gateway::text::text_view;

verus! {

/// Opcode of a dispatched event.
pub const GATEWAY_DISPATCH: u8 = 0;

/// Opcode of a heartbeat, sent by either side.
pub const GATEWAY_HEARTBEAT: u8 = 1;

/// Opcode of the identify request that opens a fresh session.
pub const GATEWAY_IDENTIFY: u8 = 2;

/// Opcode of the resume request that re-enters an existing session.
pub const GATEWAY_RESUME: u8 = 6;

/// Opcode by which the server asks the client to reconnect.
pub const GATEWAY_RECONNECT: u8 = 7;

/// Opcode by which the server declares the session invalid.
pub const GATEWAY_INVALID_SESSION: u8 = 9;

/// Opcode of the server's greeting, which carries the heartbeat interval.
pub const GATEWAY_HELLO: u8 = 10;

/// Opcode by which the server acknowledges a heartbeat.
pub const GATEWAY_HEARTBEAT_ACK: u8 = 11;

/// A decoded event envelope.
#[derive(Clone, Debug, PartialEq, Eq)]
pub struct GatewayReceivePayload {
    /// The opcode.
    pub op_code: u8,
    /// The data body, as the JSON text it arrived in.
    pub event_data: Option<String>,
    /// The sequence number; only dispatched events carry one.
    pub sequence_number: Option<u64>,
    /// The event name; only dispatched events carry one.
    pub event_name: Option<String>,
}

/// The mathematical content of an envelope.
pub ghost struct PayloadView {
    pub op_code: u8,
    pub event_data: Option<Seq<char>>,
    pub sequence_number: Option<u64>,
    pub event_name: Option<Seq<char>>,
}

impl View for GatewayReceivePayload {
    type V = PayloadView;

    open spec fn view(&self) -> PayloadView {
        PayloadView {
            op_code: self.op_code,
            event_data: text_view(self.event_data),
            sequence_number: self.sequence_number,
            event_name: text_view(self.event_name),
        }
    }
}

/// Why a text is not an envelope.
#[derive(Clone, Copy, Debug, PartialEq, Eq, Structural, Hash)]
pub enum PayloadError {
    /// The frame has no textual content.
    NoText,
    /// The text is not a JSON object.
    NotAnObject,
    /// The opcode is missing, or is not an integer from 0 to 255.
    Opcode,
    /// The sequence number is present and is not an unsigned 64-bit integer.
    Sequence,
    /// The event name is present and is not a string.
    EventName,
}

/// What an envelope holds under one of its keys.
#[derive(Clone, Debug, PartialEq, Eq)]
pub enum Member<T> {
    /// No such member, or the member is `null`.
    Absent,
    /// A member of the wrong kind.
    Invalid,
    /// A member of the right kind.
    Valid(T),
}

/// The members of the JSON object that a text holds: each key with the text
/// of its value as it stands in the input, in the order of the keys. `None`
/// where the text is not a JSON object.
pub uninterp spec fn json_members(text: Seq<char>) -> Option<Seq<(Seq<char>, Seq<char>)>>;

/// The unsigned 64-bit integer that a JSON text denotes, if it denotes one.
pub uninterp spec fn json_u64(text: Seq<char>) -> Option<u64>;

/// The string that a JSON text denotes, if it denotes one.
pub uninterp spec fn json_string(text: Seq<char>) -> Option<Seq<char>>;

/// Makes `serde_json::Error` known, as a value that is passed on unread.
#[verifier::external_type_specification]
#[verifier::external_body]
pub struct ExJsonError(serde_json::Error);

/// The content of a member list.
pub open spec fn members_view(members: Seq<(String, String)>) -> Seq<(Seq<char>, Seq<char>)> {
    Seq::new(members.len(), |i: int| (members[i].0@, members[i].1@))
}

/// Calls `serde_json::from_str` for a map from `String` to
/// `Box<serde_json::value::RawValue>`, and takes each value's text with
/// `RawValue::get`. Succeeds exactly when the text is a JSON object, with the
/// members named above.
#[verifier::external_body]
pub(crate) fn parse_members(text: &str) -> (parsed: Result<
    Vec<(String, String)>,
    serde_json::Error,
>)
    ensures
        parsed is Ok <==> json_members(text@) is Some,
        parsed is Ok ==> members_view(parsed->Ok_0@) == json_members(text@)->0,
{
    match serde_json::from_str::<BTreeMap<String, Box<RawValue>>>(text) {
        Ok(members) => Ok(
            members.into_iter().map(|(key, value)| (key, value.get().to_owned())).collect(),
        ),
        Err(error) => Err(error),
    }
}

/// Calls `serde_json::from_str` for `u64`. Succeeds exactly when the text
/// denotes an unsigned 64-bit integer, with that integer.
#[verifier::external_body]
fn parse_u64(text: &str) -> (parsed: Result<u64, serde_json::Error>)
    ensures
        parsed is Ok <==> json_u64(text@) is Some,
        parsed is Ok ==> parsed->Ok_0 == json_u64(text@)->0,
{
    serde_json::from_str::<u64>(text)
}

/// Calls `serde_json::from_str` for `String`. Succeeds exactly when the text
/// denotes a JSON string, with that string.
#[verifier::external_body]
fn parse_string(text: &str) -> (parsed: Result<String, serde_json::Error>)
    ensures
        parsed is Ok <==> json_string(text@) is Some,
        parsed is Ok ==> parsed->Ok_0@ == json_string(text@)->0,
{
    serde_json::from_str::<String>(text)
}

/// The JSON text of the first member at or after `start` under `key`.
pub open spec fn member_from(
    members: Seq<(Seq<char>, Seq<char>)>,
    key: Seq<char>,
    start: int,
) -> Option<Seq<char>>
    decreases members.len() - start,
{
    if start < 0 || start >= members.len() {
        None
    } else if members[start].0 == key {
        Some(members[start].1)
    } else {
        member_from(members, key, start + 1)
    }
}

/// The JSON text under `key`, unless there is none or it is `null`.
pub open spec fn present_member(members: Seq<(Seq<char>, Seq<char>)>, key: Seq<char>) -> Option<
    Seq<char>,
> {
    match member_from(members, key, 0) {
        Some(text) => if text == "null"@ {
            None
        } else {
            Some(text)
        },
        None => None,
    }
}

/// The member under `key`, read as an unsigned 64-bit integer.
pub open spec fn u64_member(members: Seq<(Seq<char>, Seq<char>)>, key: Seq<char>) -> Member<u64> {
    match present_member(members, key) {
        None => Member::Absent,
        Some(text) => match json_u64(text) {
            Some(value) => Member::Valid(value),
            None => Member::Invalid,
        },
    }
}

/// The member under `key`, read as a string.
pub open spec fn string_member(members: Seq<(Seq<char>, Seq<char>)>, key: Seq<char>) -> Member<
    Seq<char>,
> {
    match present_member(members, key) {
        None => Member::Absent,
        Some(text) => match json_string(text) {
            Some(value) => Member::Valid(value),
            None => Member::Invalid,
        },
    }
}

/// The envelope that four members make, or the reason they make none. The
/// opcode is required and must fit in eight bits; the sequence number and the
/// event name may be absent but not of the wrong kind.
pub open spec fn assembled(
    op: Member<u64>,
    sequence: Member<u64>,
    name: Member<Seq<char>>,
    data: Option<Seq<char>>,
) -> Result<PayloadView, PayloadError> {
    if !(op is Valid) || op->Valid_0 > 255 {
        Err(PayloadError::Opcode)
    } else if sequence is Invalid {
        Err(PayloadError::Sequence)
    } else if name is Invalid {
        Err(PayloadError::EventName)
    } else {
        Ok(
            PayloadView {
                op_code: op->Valid_0 as u8,
                event_data: data,
                sequence_number: if sequence is Valid {
                    Some(sequence->Valid_0)
                } else {
                    None
                },
                event_name: if name is Valid {
                    Some(name->Valid_0)
                } else {
                    None
                },
            },
        )
    }
}

/// The envelope that a member list holds.
pub open spec fn envelope_of_members(members: Seq<(Seq<char>, Seq<char>)>) -> Result<
    PayloadView,
    PayloadError,
> {
    assembled(
        u64_member(members, "op"@),
        u64_member(members, "s"@),
        string_member(members, "t"@),
        present_member(members, "d"@),
    )
}

/// The envelope that a text holds.
pub open spec fn envelope_of_text(text: Seq<char>) -> Result<PayloadView, PayloadError> {
    match json_members(text) {
        Some(members) => envelope_of_members(members),
        None => Err(PayloadError::NotAnObject),
    }
}

/// The content of a decoding result.
pub open spec fn decoded_view(decoded: Result<GatewayReceivePayload, PayloadError>) -> Result<
    PayloadView,
    PayloadError,
> {
    match decoded {
        Ok(payload) => Ok(payload@),
        Err(error) => Err(error),
    }
}

/// The content of a member that holds a text.
pub open spec fn text_member_view(member: Member<String>) -> Member<Seq<char>> {
    match member {
        Member::Absent => Member::Absent,
        Member::Invalid => Member::Invalid,
        Member::Valid(text) => Member::Valid(text@),
    }
}

/// Builds the envelope from its four members, once each has been read.
pub fn assemble(
    op: Member<u64>,
    sequence: Member<u64>,
    name: Member<String>,
    data: Option<String>,
) -> (decoded: Result<GatewayReceivePayload, PayloadError>)
    ensures
        decoded_view(decoded) == assembled(op, sequence, text_member_view(name), text_view(data)),
{
    let op_code: u8 = match op {
        Member::Valid(value) => {
            if value > 255 {
                return Err(PayloadError::Opcode);
            }
            value as u8
        },
        _ => {
            return Err(PayloadError::Opcode);
        },
    };
    let sequence_number = match sequence {
        Member::Valid(value) => Some(value),
        Member::Absent => None,
        Member::Invalid => {
            return Err(PayloadError::Sequence);
        },
    };
    let event_name = match name {
        Member::Valid(text) => Some(text),
        Member::Absent => None,
        Member::Invalid => {
            return Err(PayloadError::EventName);
        },
    };
    Ok(GatewayReceivePayload { op_code, event_data: data, sequence_number, event_name })
}

/// Finds the JSON text under `key`, unless there is none or it is `null`.
pub fn find_member<'a>(members: &'a Vec<(String, String)>, key: &str) -> (found: Option<&'a str>)
    ensures
        found is Some <==> present_member(members_view(members@), key@) is Some,
        found is Some ==> found->0@ == present_member(members_view(members@), key@)->0,
{
    let wanted: String = key.to_owned();
    let null: String = "null".to_owned();
    let mut index: usize = 0;
    while index < members.len()
        invariant
            index <= members@.len(),
            wanted@ == key@,
            null@ == "null"@,
            member_from(members_view(members@), key@, 0) == member_from(
                members_view(members@),
                key@,
                index as int,
            ),
        decreases members@.len() - index,
    {
        let entry = &members[index];
        assert(members_view(members@)[index as int] == (entry.0@, entry.1@));
        if entry.0 == wanted {
            if entry.1 == null {
                return None;
            }
            return Some(entry.1.as_str());
        }
        index = index + 1;
    }
    None
}

/// Reads the member under `key` as an unsigned 64-bit integer.
pub fn read_u64_member(members: &Vec<(String, String)>, key: &str) -> (member: Member<u64>)
    ensures
        member == u64_member(members_view(members@), key@),
{
    match find_member(members, key) {
        None => Member::Absent,
        Some(text) => match parse_u64(text) {
            Ok(value) => Member::Valid(value),
            Err(_) => Member::Invalid,
        },
    }
}

/// Reads the member under `key` as a string.
pub fn read_string_member(members: &Vec<(String, String)>, key: &str) -> (member: Member<String>)
    ensures
        text_member_view(member) == string_member(members_view(members@), key@),
{
    match find_member(members, key) {
        None => Member::Absent,
        Some(text) => match parse_string(text) {
            Ok(value) => Member::Valid(value),
            Err(_) => Member::Invalid,
        },
    }
}

/// Decodes the envelope that a member list holds.
pub fn decode_members(members: &Vec<(String, String)>) -> (decoded: Result<
    GatewayReceivePayload,
    PayloadError,
>)
    ensures
        decoded_view(decoded) == envelope_of_members(members_view(members@)),
{
    let op = read_u64_member(members, "op");
    let sequence = read_u64_member(members, "s");
    let name = read_string_member(members, "t");
    let data = match find_member(members, "d") {
        Some(text) => Some(text.to_owned()),
        None => None,
    };
    assemble(op, sequence, name, data)
}

/// Decodes the envelope that a text holds.
pub fn decode_envelope(text: &str) -> (decoded: Result<GatewayReceivePayload, PayloadError>)
    ensures
        decoded_view(decoded) == envelope_of_text(text@),
{
    match parse_members(text) {
        Ok(members) => decode_members(&members),
        Err(_) => Err(PayloadError::NotAnObject),
    }
}

} // verus!
