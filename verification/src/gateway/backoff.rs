//! Delay between reconnection attempts: exponential in the number of the
//! attempt, bounded, and spread by a jitter.

use vstd::prelude::*;

use crate::gateway::heartbeat::JITTER_SCALE;

verus! {

/// How reconnection is retried.
#[derive(Clone, Copy, Debug, PartialEq, Eq, Structural)]
pub struct RetryPolicy {
    /// Ceiling of the delay before the first retry, in milliseconds.
    pub base_delay_ms: u64,
    /// Ceiling of every delay, in milliseconds.
    pub max_delay_ms: u64,
    /// How many retries in a row are made before the connection is given up.
    pub max_attempts: u32,
}

/// The jitter, held to a fraction of one.
pub open spec fn clamped_jitter(jitter_ppm: u32) -> u32 {
    if jitter_ppm > JITTER_SCALE {
        JITTER_SCALE
    } else {
        jitter_ppm
    }
}

/// Ceiling of the delay before retry number `attempt` (counted from zero):
/// the base delay doubled `attempt` times, held to the maximum.
pub open spec fn delay_ceiling(policy: RetryPolicy, attempt: u32) -> u64
    decreases attempt,
{
    if attempt == 0 {
        if policy.base_delay_ms > policy.max_delay_ms {
            policy.max_delay_ms
        } else {
            policy.base_delay_ms
        }
    } else {
        let before = delay_ceiling(policy, (attempt - 1) as u32);
        if before > policy.max_delay_ms - before {
            policy.max_delay_ms
        } else {
            (2 * before) as u64
        }
    }
}

/// The delay before retry number `attempt`: the lower half of the ceiling is
/// always waited, the upper half in proportion to the jitter.
pub open spec fn retry_delay(policy: RetryPolicy, attempt: u32, jitter_ppm: u32) -> u64 {
    let ceiling = delay_ceiling(policy, attempt);
    let spread = ceiling / 2;
    (ceiling - spread + (spread * clamped_jitter(jitter_ppm)) / (JITTER_SCALE as int)) as u64
}

/// No ceiling lies above the maximum delay.
pub proof fn lemma_ceiling_bounded(policy: RetryPolicy, attempt: u32)
    ensures
        delay_ceiling(policy, attempt) <= policy.max_delay_ms,
    decreases attempt,
{
    if attempt > 0 {
        lemma_ceiling_bounded(policy, (attempt - 1) as u32);
    }
}

/// The ceiling never shrinks from one attempt to the next.
pub proof fn lemma_ceiling_grows(policy: RetryPolicy, attempt: u32)
    requires
        attempt < u32::MAX,
    ensures
        delay_ceiling(policy, attempt) <= delay_ceiling(policy, (attempt + 1) as u32),
{
    lemma_ceiling_bounded(policy, attempt);
    assert(delay_ceiling(policy, ((attempt + 1) as u32 - 1) as u32) == delay_ceiling(
        policy,
        attempt,
    ));
}

/// Every delay lies between half its ceiling and the ceiling, hence never
/// above the maximum delay.
pub proof fn lemma_delay_bounded(policy: RetryPolicy, attempt: u32, jitter_ppm: u32)
    ensures
        retry_delay(policy, attempt, jitter_ppm) <= delay_ceiling(policy, attempt),
        retry_delay(policy, attempt, jitter_ppm) <= policy.max_delay_ms,
        retry_delay(policy, attempt, jitter_ppm) >= delay_ceiling(policy, attempt) - delay_ceiling(
            policy,
            attempt,
        ) / 2,
{
    lemma_ceiling_bounded(policy, attempt);
    let spread = (delay_ceiling(policy, attempt) / 2) as int;
    let jitter = clamped_jitter(jitter_ppm) as int;
    lemma_scaled_bounded(spread, jitter);
}

/// A part of `whole` taken in millionths is at most `whole`.
pub proof fn lemma_scaled_bounded(whole: int, part_ppm: int)
    requires
        0 <= whole,
        0 <= part_ppm <= 1_000_000,
    ensures
        0 <= (whole * part_ppm) / 1_000_000 <= whole,
{
    assert(0 <= whole * part_ppm <= whole * 1_000_000) by (nonlinear_arith)
        requires
            0 <= whole,
            0 <= part_ppm <= 1_000_000,
    ;
    assert((whole * part_ppm) / 1_000_000 <= whole) by (nonlinear_arith)
        requires
            whole * part_ppm <= whole * 1_000_000,
    ;
    assert(0 <= (whole * part_ppm) / 1_000_000) by (nonlinear_arith)
        requires
            0 <= whole * part_ppm,
    ;
}

/// Holds a jitter to a fraction of one.
pub fn clamp_jitter(jitter_ppm: u32) -> (clamped: u32)
    ensures
        clamped == clamped_jitter(jitter_ppm),
        clamped <= JITTER_SCALE,
{
    if jitter_ppm > JITTER_SCALE {
        JITTER_SCALE
    } else {
        jitter_ppm
    }
}

impl RetryPolicy {
    /// Ceiling of the delay before retry number `attempt`.
    pub fn ceiling(&self, attempt: u32) -> (ceiling: u64)
        ensures
            ceiling == delay_ceiling(*self, attempt),
    {
        let mut ceiling: u64 = if self.base_delay_ms > self.max_delay_ms {
            self.max_delay_ms
        } else {
            self.base_delay_ms
        };
        let mut done: u32 = 0;
        while done < attempt
            invariant
                done <= attempt,
                ceiling == delay_ceiling(*self, done),
            decreases attempt - done,
        {
            proof {
                lemma_ceiling_bounded(*self, done);
                assert(delay_ceiling(*self, ((done + 1) as u32 - 1) as u32) == delay_ceiling(
                    *self,
                    done,
                ));
            }
            if ceiling > self.max_delay_ms - ceiling {
                ceiling = self.max_delay_ms;
            } else {
                ceiling = 2 * ceiling;
            }
            done = done + 1;
        }
        ceiling
    }

    /// The delay before retry number `attempt`, for the jitter drawn.
    pub fn delay(&self, attempt: u32, jitter_ppm: u32) -> (delay_ms: u64)
        ensures
            delay_ms == retry_delay(*self, attempt, jitter_ppm),
            delay_ms <= self.max_delay_ms,
    {
        let ceiling: u64 = self.ceiling(attempt);
        let spread: u64 = ceiling / 2;
        let jitter: u32 = clamp_jitter(jitter_ppm);
        proof {
            lemma_scaled_bounded(spread as int, jitter as int);
            lemma_delay_bounded(*self, attempt, jitter_ppm);
            assert(spread as int * jitter as int <= spread as int * 1_000_000) by (nonlinear_arith)
                requires
                    0 <= spread,
                    0 <= jitter <= 1_000_000,
            ;
        }
        let scaled: u128 = (spread as u128) * (jitter as u128);
        let extra: u64 = (scaled / 1_000_000) as u64;
        ceiling - spread + extra
    }
}

} // verus!
