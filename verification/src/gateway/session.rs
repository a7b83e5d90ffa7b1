//! What a connection remembers in order to resume: the session identifier,
//! the last sequence number seen, and where to reconnect.

use vstd::prelude::*;

use crate::gateway::text::text_view;

verus! {

/// The resumable state of one logical session.
#[derive(Clone, Debug, PartialEq, Eq)]
pub struct SessionState {
    /// Identifier of the session, known once the server has confirmed it.
    pub session_id: Option<String>,
    /// The last sequence number seen on a dispatched event.
    pub sequence: Option<u64>,
    /// Address to reconnect to when resuming.
    pub resume_gateway_url: Option<String>,
}

/// The mathematical content of a session state.
pub ghost struct SessionView {
    pub session_id: Option<Seq<char>>,
    pub sequence: Option<u64>,
    pub resume_gateway_url: Option<Seq<char>>,
}

impl View for SessionState {
    type V = SessionView;

    open spec fn view(&self) -> SessionView {
        SessionView {
            session_id: text_view(self.session_id),
            sequence: self.sequence,
            resume_gateway_url: text_view(self.resume_gateway_url),
        }
    }
}

/// What recording a sequence number did.
#[derive(Clone, Copy, Debug, PartialEq, Eq, Structural)]
pub enum SequenceOutcome {
    /// The event carried no sequence number; nothing changed.
    Unchanged,
    /// The number was recorded as the last one seen.
    Recorded,
    /// The number lies below the last one seen. The state keeps the higher
    /// number; the regression is reported for the caller to surface.
    Regression { last_seen: u64, received: u64 },
}

/// The state with nothing remembered.
pub open spec fn empty_session() -> SessionView {
    SessionView { session_id: None, sequence: None, resume_gateway_url: None }
}

/// The sequence number remembered after an event with `received` has been
/// recorded on top of `last_seen`: the received one, unless there is none or
/// it would move the sequence backward.
pub open spec fn sequence_after(last_seen: Option<u64>, received: Option<u64>) -> Option<u64> {
    match (last_seen, received) {
        (_, None) => last_seen,
        (None, Some(number)) => Some(number),
        (Some(last), Some(number)) => if number < last {
            Some(last)
        } else {
            Some(number)
        },
    }
}

/// What recording `received` on top of `last_seen` reports.
pub open spec fn outcome_of(last_seen: Option<u64>, received: Option<u64>) -> SequenceOutcome {
    match (last_seen, received) {
        (_, None) => SequenceOutcome::Unchanged,
        (None, Some(_)) => SequenceOutcome::Recorded,
        (Some(last), Some(number)) => if number < last {
            SequenceOutcome::Regression { last_seen: last, received: number }
        } else {
            SequenceOutcome::Recorded
        },
    }
}

/// Copies an optional text.
pub fn copy_text(text: &Option<String>) -> (copy: Option<String>)
    ensures
        copy == *text,
{
    match text {
        Some(text) => Some(text.clone()),
        None => None,
    }
}

impl SessionState {
    /// The state of a first connect: nothing is remembered.
    pub fn new() -> (state: Self)
        ensures
            state@ == empty_session(),
    {
        SessionState { session_id: None, sequence: None, resume_gateway_url: None }
    }

    /// Takes over what the server confirmed when the session became ready.
    /// The sequence number stays as it is.
    pub fn establish(&mut self, session_id: String, resume_gateway_url: Option<String>)
        ensures
            final(self)@ == (SessionView {
                session_id: Some(session_id@),
                sequence: old(self).sequence,
                resume_gateway_url: text_view(resume_gateway_url),
            }),
    {
        self.session_id = Some(session_id);
        self.resume_gateway_url = resume_gateway_url;
    }

    /// Records the sequence number of a dispatched event. A number at or
    /// above the last one seen becomes the last one seen. A lower number is a
    /// regression: it is reported and the state is left alone, so the
    /// sequence never moves backward.
    pub fn record_dispatch(&mut self, sequence: Option<u64>) -> (outcome: SequenceOutcome)
        ensures
            outcome == outcome_of(old(self).sequence, sequence),
            final(self).sequence == sequence_after(old(self).sequence, sequence),
            final(self).session_id == old(self).session_id,
            final(self).resume_gateway_url == old(self).resume_gateway_url,
            old(self).sequence is Some ==> final(self).sequence is Some && final(self).sequence->0
                >= old(self).sequence->0,
    {
        match sequence {
            None => SequenceOutcome::Unchanged,
            Some(number) => {
                match self.sequence {
                    Some(last) => {
                        if number < last {
                            return SequenceOutcome::Regression { last_seen: last, received: number };
                        }
                    },
                    None => {},
                }
                self.sequence = Some(number);
                SequenceOutcome::Recorded
            },
        }
    }

    /// Forgets the session: after a termination that cannot be resumed the
    /// next connect starts afresh.
    pub fn clear(&mut self)
        ensures
            final(self)@ == empty_session(),
    {
        self.session_id = None;
        self.sequence = None;
        self.resume_gateway_url = None;
    }

    /// A copy of the state, for building a resume request.
    pub fn snapshot(&self) -> (copy: Self)
        ensures
            copy == *self,
    {
        SessionState {
            session_id: copy_text(&self.session_id),
            sequence: self.sequence,
            resume_gateway_url: copy_text(&self.resume_gateway_url),
        }
    }

    /// Whether a session identifier is remembered, so that a resume can be
    /// asked for.
    pub fn can_resume(&self) -> (possible: bool)
        ensures
            possible == self@.session_id is Some,
    {
        self.session_id.is_some()
    }
}

} // verus!
