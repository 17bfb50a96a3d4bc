//! The retry policy for probing: bounded attempts with exponential backoff.
//!
//! A probe cycle makes up to [`MAX_ATTEMPTS`] attempts. The first
//! inter-attempt delay is [`INITIAL_DELAY_MS`]; each further delay is the
//! prior one multiplied by [`BACKOFF_FACTOR`], saturating at `u64::MAX`, so
//! the delay sequence never decreases. The policy is a state machine from
//! attempt outcomes to actions, independent of the transport: the
//! surrounding process performs the attempt and the sleep, and this module
//! decides what comes next. Callers see a single success-or-exhausted
//! outcome, never a raw transport error.

use crate::probe::{ProbeError, ProbeOutcome};
use vstd::prelude::*;

verus! {

/// The most attempts one probe cycle may make.
pub const MAX_ATTEMPTS: u64 = 5;

/// The delay before the first retry, in milliseconds.
pub const INITIAL_DELAY_MS: u64 = 500;

/// Each retry's delay is the prior delay multiplied by this factor.
pub const BACKOFF_FACTOR: u64 = 500;

/// The delay that follows a delay of `d` milliseconds, saturating at
/// `u64::MAX`.
pub open spec fn grown_delay(d: u64) -> u64 {
    if d * BACKOFF_FACTOR <= u64::MAX {
        (d * BACKOFF_FACTOR) as u64
    } else {
        u64::MAX
    }
}

/// The delay scheduled after `k` failed attempts.
pub open spec fn nth_delay_ms(k: nat) -> u64
    decreases k,
{
    if k == 0 {
        INITIAL_DELAY_MS
    } else {
        grown_delay(nth_delay_ms((k - 1) as nat))
    }
}

/// Law: the inter-attempt delay sequence starts at [`INITIAL_DELAY_MS`] and
/// never decreases.
pub proof fn lemma_delays_nondecreasing(k: nat)
    ensures
        nth_delay_ms(0) == INITIAL_DELAY_MS,
        INITIAL_DELAY_MS <= nth_delay_ms(k),
        nth_delay_ms(k) <= nth_delay_ms(k + 1),
    decreases k,
{
    if k > 0 {
        lemma_delays_nondecreasing((k - 1) as nat);
    }
}

/// What the retry policy asks for after an attempt: finish with an outcome,
/// or sleep the given number of milliseconds and try again.
#[derive(Clone, Copy, PartialEq, Eq, Structural, Debug)]
pub enum RetryAction {
    Done(ProbeOutcome),
    RetryAfter(u64),
}

/// One probe cycle's retry state: how many attempts were made, and the delay
/// the next retry would wait.
pub struct RetrySession {
    pub attempts_made: u64,
    pub next_delay_ms: u64,
}

impl RetrySession {
    /// A session never exceeds the attempt bound, and its pending delay
    /// never falls below the initial one.
    pub open spec fn wf(self) -> bool {
        &&& self.attempts_made <= MAX_ATTEMPTS
        &&& self.next_delay_ms >= INITIAL_DELAY_MS
    }

    /// Starts a cycle: no attempts made, first retry delay scheduled.
    pub fn new() -> (s: Self)
        ensures
            s.attempts_made == 0,
            s.next_delay_ms == INITIAL_DELAY_MS,
            s.wf(),
    {
        RetrySession { attempts_made: 0, next_delay_ms: INITIAL_DELAY_MS }
    }

    /// Records the outcome of one attempt and decides what follows: a
    /// success ends the cycle with the endpoint's answer; a failure on the
    /// last permitted attempt ends it as `Exhausted`; any earlier failure
    /// asks for a retry after the scheduled delay and grows the next one.
    pub fn on_attempt(&mut self, outcome: Result<bool, ProbeError>) -> (r: RetryAction)
        requires
            old(self).wf(),
            old(self).attempts_made < MAX_ATTEMPTS,
        ensures
            final(self).wf(),
            final(self).attempts_made == old(self).attempts_made + 1,
            outcome matches Ok(b) ==> r == RetryAction::Done(ProbeOutcome::Success(b))
                && final(self).next_delay_ms == old(self).next_delay_ms,
            outcome is Err && old(self).attempts_made + 1 == MAX_ATTEMPTS ==> r
                == RetryAction::Done(ProbeOutcome::Exhausted) && final(self).next_delay_ms
                == old(self).next_delay_ms,
            outcome is Err && old(self).attempts_made + 1 < MAX_ATTEMPTS ==> r
                == RetryAction::RetryAfter(old(self).next_delay_ms) && final(self).next_delay_ms
                == grown_delay(old(self).next_delay_ms),
            final(self).next_delay_ms >= old(self).next_delay_ms,
    {
        self.attempts_made = self.attempts_made + 1;
        match outcome {
            Ok(b) => RetryAction::Done(ProbeOutcome::Success(b)),
            Err(_) => {
                if self.attempts_made == MAX_ATTEMPTS {
                    RetryAction::Done(ProbeOutcome::Exhausted)
                } else {
                    let d = self.next_delay_ms;
                    self.next_delay_ms = grow_delay(d);
                    RetryAction::RetryAfter(d)
                }
            },
        }
    }
}

/// Computes the delay that follows a delay of `d` milliseconds.
fn grow_delay(d: u64) -> (r: u64)
    ensures
        r == grown_delay(d),
        r >= d,
{
    if d <= u64::MAX / BACKOFF_FACTOR {
        d * BACKOFF_FACTOR
    } else {
        u64::MAX
    }
}

} // verus!
