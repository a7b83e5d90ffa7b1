//! The heartbeat scheduler: when to send a liveness ping, and when a
//! connection that stopped acknowledging them is given up as a zombie.
//!
//! The scheduler owns no timer. Its caller tells it the time, in milliseconds
//! of a monotonic clock, and acts on what it answers.

use vstd::prelude::*;

verus! {

/// Denominator of the jitter: the first beat is sent after
/// `interval × jitter / JITTER_SCALE`.
pub const JITTER_SCALE: u32 = 1_000_000;

/// Where the scheduler stands.
#[derive(Clone, Copy, Debug, PartialEq, Eq, Structural)]
pub enum HeartbeatPhase {
    /// Not started, or stopped.
    Idle,
    /// A beat is scheduled.
    Armed,
    /// A beat was sent and its acknowledgment is awaited.
    AwaitingAck,
    /// The acknowledgment did not arrive in time. The scheduler stays here
    /// until it is armed for a new connection.
    Missed,
}

/// What the caller is to do after a poll.
#[derive(Clone, Copy, Debug, PartialEq, Eq, Structural)]
pub enum HeartbeatAction {
    /// Nothing is due.
    Wait,
    /// Send a heartbeat that carries this sequence number.
    Beat { sequence: Option<u64> },
    /// The connection is a zombie: abandon it and reconnect.
    Zombie,
}

/// The mathematical content of a scheduler.
pub ghost struct HeartbeatView {
    /// Time between beats, in milliseconds.
    pub interval_ms: u64,
    /// Fraction of the interval after which the first beat is sent, in
    /// millionths.
    pub jitter_ppm: u32,
    pub phase: HeartbeatPhase,
    /// When the next beat is due. Without meaning while idle or missed.
    pub deadline: u64,
}

/// Delay of the first beat: the interval scaled by the jitter, rounded down.
pub open spec fn first_delay(interval_ms: u64, jitter_ppm: u32) -> int {
    (interval_ms as int * jitter_ppm as int) / (JITTER_SCALE as int)
}

/// The time `delay` after `now`, or the end of time if that lies beyond it.
pub open spec fn time_after(now: u64, delay: int) -> u64 {
    if now + delay > u64::MAX {
        u64::MAX
    } else {
        (now + delay) as u64
    }
}

/// The scheduler once armed at `now`: the first beat is due after the
/// jittered delay.
pub open spec fn armed_at(view: HeartbeatView, now: u64) -> HeartbeatView {
    HeartbeatView {
        phase: HeartbeatPhase::Armed,
        deadline: time_after(now, first_delay(view.interval_ms, view.jitter_ppm)),
        ..view
    }
}

/// What a poll at `now` answers.
pub open spec fn poll_action(view: HeartbeatView, now: u64, sequence: Option<u64>)
    -> HeartbeatAction {
    if now < view.deadline {
        HeartbeatAction::Wait
    } else {
        match view.phase {
            HeartbeatPhase::Armed => HeartbeatAction::Beat { sequence },
            HeartbeatPhase::AwaitingAck => HeartbeatAction::Zombie,
            _ => HeartbeatAction::Wait,
        }
    }
}

/// The scheduler after a poll at `now`. A due beat is sent and the next one
/// is due a full interval later; if that deadline passes unacknowledged the
/// beat is missed.
pub open spec fn polled_at(view: HeartbeatView, now: u64) -> HeartbeatView {
    if now < view.deadline {
        view
    } else {
        match view.phase {
            HeartbeatPhase::Armed => HeartbeatView {
                phase: HeartbeatPhase::AwaitingAck,
                deadline: time_after(now, view.interval_ms as int),
                ..view
            },
            HeartbeatPhase::AwaitingAck => HeartbeatView { phase: HeartbeatPhase::Missed, ..view },
            _ => view,
        }
    }
}

/// The scheduler after an acknowledgment at `now`: if one was awaited, the
/// next beat is due a full interval later. A stray acknowledgment changes
/// nothing.
pub open spec fn acked_at(view: HeartbeatView, now: u64) -> HeartbeatView {
    if view.phase == HeartbeatPhase::AwaitingAck {
        HeartbeatView {
            phase: HeartbeatPhase::Armed,
            deadline: time_after(now, view.interval_ms as int),
            ..view
        }
    } else {
        view
    }
}

/// The time `delay` after `now`, saturating at the end of time.
pub fn add_delay(now: u64, delay: u64) -> (due: u64)
    ensures
        due == time_after(now, delay as int),
{
    if delay > u64::MAX - now {
        u64::MAX
    } else {
        now + delay
    }
}

/// Liveness protocol of one connection.
#[derive(Clone, Copy, Debug, PartialEq, Eq)]
pub struct HeartbeatScheduler {
    interval_ms: u64,
    jitter_ppm: u32,
    phase: HeartbeatPhase,
    deadline: u64,
}

impl View for HeartbeatScheduler {
    type V = HeartbeatView;

    closed spec fn view(&self) -> HeartbeatView {
        HeartbeatView {
            interval_ms: self.interval_ms,
            jitter_ppm: self.jitter_ppm,
            phase: self.phase,
            deadline: self.deadline,
        }
    }
}

impl HeartbeatScheduler {
    #[verifier::type_invariant]
    spec fn jitter_in_range(&self) -> bool {
        self.jitter_ppm <= JITTER_SCALE
    }

    /// A scheduler for the interval that the server's greeting dictates and
    /// the jitter drawn for this connection. The jitter is a fraction of the
    /// interval, so a value above `JITTER_SCALE` is refused.
    pub fn new(interval_ms: u64, jitter_ppm: u32) -> (scheduler: Option<Self>)
        ensures
            scheduler is Some <==> jitter_ppm <= JITTER_SCALE,
            scheduler is Some ==> scheduler->0@ == (HeartbeatView {
                interval_ms,
                jitter_ppm,
                phase: HeartbeatPhase::Idle,
                deadline: 0,
            }),
    {
        if jitter_ppm > JITTER_SCALE {
            None
        } else {
            Some(HeartbeatScheduler { interval_ms, jitter_ppm, phase: HeartbeatPhase::Idle, deadline: 0 })
        }
    }

    /// Where the scheduler stands.
    pub fn phase(&self) -> (phase: HeartbeatPhase)
        ensures
            phase == self@.phase,
    {
        self.phase
    }

    /// When the next beat is due.
    pub fn deadline(&self) -> (deadline: u64)
        ensures
            deadline == self@.deadline,
    {
        self.deadline
    }

    /// Time between beats, in milliseconds.
    pub fn interval_ms(&self) -> (interval: u64)
        ensures
            interval == self@.interval_ms,
    {
        self.interval_ms
    }

    /// Starts the scheduler at `now`, whatever phase it was in.
    pub fn arm(&mut self, now: u64)
        ensures
            final(self)@ == armed_at(old(self)@, now),
    {
        proof {
            use_type_invariant(&*self);
        }
        let interval: u128 = self.interval_ms as u128;
        let jitter: u128 = self.jitter_ppm as u128;
        assert(interval * jitter <= interval * 1_000_000) by (nonlinear_arith)
            requires
                jitter <= 1_000_000,
                interval >= 0,
        ;
        assert(interval * 1_000_000 <= 0xffff_ffff_ffff_ffff * 1_000_000) by (nonlinear_arith)
            requires
                interval <= 0xffff_ffff_ffff_ffff,
        ;
        let scaled: u128 = interval * jitter;
        let delay: u128 = scaled / 1_000_000;
        assert(delay <= interval) by (nonlinear_arith)
            requires
                delay == scaled / 1_000_000,
                scaled <= interval * 1_000_000,
        ;
        let delay: u64 = delay as u64;
        self.phase = HeartbeatPhase::Armed;
        self.deadline = add_delay(now, delay);
    }

    /// Stops the scheduler: nothing is due until it is armed again.
    pub fn stop(&mut self)
        ensures
            final(self)@ == (HeartbeatView { phase: HeartbeatPhase::Idle, ..old(self)@ }),
    {
        proof {
            use_type_invariant(&*self);
        }
        self.phase = HeartbeatPhase::Idle;
    }

    /// Tells the scheduler the time. `sequence` is the last sequence number
    /// seen, which a beat carries.
    pub fn poll(&mut self, now: u64, sequence: Option<u64>) -> (action: HeartbeatAction)
        ensures
            action == poll_action(old(self)@, now, sequence),
            final(self)@ == polled_at(old(self)@, now),
    {
        proof {
            use_type_invariant(&*self);
        }
        if now < self.deadline {
            return HeartbeatAction::Wait;
        }
        match self.phase {
            HeartbeatPhase::Armed => {
                self.phase = HeartbeatPhase::AwaitingAck;
                self.deadline = add_delay(now, self.interval_ms);
                HeartbeatAction::Beat { sequence }
            },
            HeartbeatPhase::AwaitingAck => {
                self.phase = HeartbeatPhase::Missed;
                HeartbeatAction::Zombie
            },
            _ => HeartbeatAction::Wait,
        }
    }

    /// Tells the scheduler that a heartbeat was acknowledged at `now`.
    /// Returns whether an acknowledgment was awaited.
    pub fn acknowledge(&mut self, now: u64) -> (awaited: bool)
        ensures
            awaited == (old(self)@.phase == HeartbeatPhase::AwaitingAck),
            final(self)@ == acked_at(old(self)@, now),
    {
        proof {
            use_type_invariant(&*self);
        }
        match self.phase {
            HeartbeatPhase::AwaitingAck => {
                self.phase = HeartbeatPhase::Armed;
                self.deadline = add_delay(now, self.interval_ms);
                true
            },
            _ => false,
        }
    }
}

/// How many zombie signals a run of polls at the given times raises, when no
/// acknowledgment arrives in between.
pub open spec fn zombie_signals(view: HeartbeatView, times: Seq<u64>) -> nat
    decreases times.len(),
{
    if times.len() == 0 {
        0
    } else {
        let here: nat = if poll_action(view, times[0], None) == HeartbeatAction::Zombie {
            1
        } else {
            0
        };
        here + zombie_signals(polled_at(view, times[0]), times.drop_first())
    }
}

/// Once a beat is missed, no poll raises another signal.
pub proof fn lemma_missed_stays_silent(view: HeartbeatView, times: Seq<u64>)
    requires
        view.phase == HeartbeatPhase::Missed || view.phase == HeartbeatPhase::Idle,
    ensures
        zombie_signals(view, times) == 0,
    decreases times.len(),
{
    if times.len() > 0 {
        lemma_missed_stays_silent(polled_at(view, times[0]), times.drop_first());
    }
}

/// While an acknowledgment is awaited and none arrives, the polls raise the
/// zombie signal exactly once if one of them falls on or after the deadline
/// of the next beat, and never otherwise.
pub proof fn lemma_zombie_signalled_once(view: HeartbeatView, times: Seq<u64>)
    requires
        view.phase == HeartbeatPhase::AwaitingAck,
    ensures
        (exists|i: int| 0 <= i < times.len() && times[i] >= view.deadline) ==> zombie_signals(
            view,
            times,
        ) == 1,
        (forall|i: int| 0 <= i < times.len() ==> times[i] < view.deadline) ==> zombie_signals(
            view,
            times,
        ) == 0,
    decreases times.len(),
{
    if times.len() > 0 {
        let rest = times.drop_first();
        let next = polled_at(view, times[0]);
        if times[0] >= view.deadline {
            lemma_missed_stays_silent(next, rest);
        } else {
            lemma_zombie_signalled_once(next, rest);
            if exists|i: int| 0 <= i < times.len() && times[i] >= view.deadline {
                let i = choose|i: int| 0 <= i < times.len() && times[i] >= view.deadline;
                assert(rest[i - 1] == times[i]);
            }
            assert forall|i: int| 0 <= i < rest.len() && (forall|j: int|
                0 <= j < times.len() ==> times[j] < view.deadline) implies rest[i]
                < view.deadline by {
                assert(rest[i] == times[i + 1]);
            }
        }
    }
}

/// Whatever phase the scheduler is in, a run of polls without an
/// acknowledgment raises the zombie signal at most once.
pub proof fn lemma_zombie_never_repeated(view: HeartbeatView, times: Seq<u64>)
    ensures
        zombie_signals(view, times) <= 1,
    decreases times.len(),
{
    if times.len() > 0 {
        let rest = times.drop_first();
        let next = polled_at(view, times[0]);
        if poll_action(view, times[0], None) == HeartbeatAction::Zombie {
            lemma_missed_stays_silent(next, rest);
        } else {
            lemma_zombie_never_repeated(next, rest);
        }
    }
}

} // verus!
