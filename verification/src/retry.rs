//! The retry policy.
//!
//! Transient failures of the initial request submission are retried under
//! exponential backoff, bounded by a maximum elapsed time so that sustained
//! rate-limiting cannot hold the process forever. Retrying stops the moment
//! streaming has begun: a mid-stream failure is terminal for the invocation.
//!
//! The rule is fixed: the first delay is half a second, each following delay
//! grows by half again (capped at a minute), and once the delays already
//! slept reach a minute in total the next failure is terminal.

use vstd::prelude::*;

verus! {

/// The first delay, in milliseconds.
pub const INITIAL_RETRY_INTERVAL_MS: u64 = 500;

/// No single delay grows beyond this, in milliseconds.
pub const MAX_RETRY_INTERVAL_MS: u64 = 60000;

/// Once this much delay has been slept, in milliseconds, the next failure is
/// terminal.
pub const MAX_RETRY_ELAPSED_MS: u64 = 60000;

/// The backoff clock: delay already slept, and the next delay to use.
#[derive(Clone, Copy, PartialEq, Eq, Structural, Debug)]
pub struct BackoffState {
    pub elapsed_ms: u64,
    pub interval_ms: u64,
}

/// A usable backoff clock: the next delay is positive and capped, and the
/// slept total cannot overflow when one more capped delay is added.
pub open spec fn backoff_wf(s: BackoffState) -> bool {
    &&& 1 <= s.interval_ms <= MAX_RETRY_INTERVAL_MS
    &&& s.elapsed_ms <= MAX_RETRY_ELAPSED_MS + MAX_RETRY_INTERVAL_MS
}

/// What to do after a failed attempt.
#[derive(Clone, Copy, PartialEq, Eq, Structural, Debug)]
pub enum RetryDecision {
    /// Sleep this many milliseconds, then try again.
    RetryAfter(u64),
    /// The failure is terminal; surface it to the caller.
    GiveUp,
}

/// The delay after `interval`: half again as long, capped at
/// `MAX_RETRY_INTERVAL_MS`.
pub open spec fn spec_next_interval(interval: u64) -> u64 {
    if interval + interval / 2 > MAX_RETRY_INTERVAL_MS {
        MAX_RETRY_INTERVAL_MS
    } else {
        (interval + interval / 2) as u64
    }
}

/// A fresh backoff clock: nothing slept, the first delay pending.
pub fn initial_backoff() -> (s: BackoffState)
    ensures
        s.elapsed_ms == 0,
        s.interval_ms == INITIAL_RETRY_INTERVAL_MS,
        backoff_wf(s),
{
    BackoffState { elapsed_ms: 0, interval_ms: INITIAL_RETRY_INTERVAL_MS }
}

/// Decide what follows a failed attempt. A retry is granted exactly when the
/// failure is transient, streaming has not begun, and the slept total is
/// still under the bound; the granted delay is the state's pending interval,
/// and the new state records the sleep and grows the next delay. A terminal
/// decision leaves the state unchanged.
pub fn next_retry(s: &BackoffState, streaming_started: bool, transient: bool) -> (r: (
    RetryDecision,
    BackoffState,
))
    requires
        backoff_wf(*s),
    ensures
        backoff_wf(r.1),
        r.0 is RetryAfter <==> (transient && !streaming_started && s.elapsed_ms
            < MAX_RETRY_ELAPSED_MS),
        r.0 matches RetryDecision::RetryAfter(d) ==> d == s.interval_ms && r.1.elapsed_ms
            == s.elapsed_ms + s.interval_ms && r.1.interval_ms == spec_next_interval(
            s.interval_ms,
        ),
        r.0 is GiveUp ==> r.1 == *s,
{
    if streaming_started || !transient || s.elapsed_ms >= MAX_RETRY_ELAPSED_MS {
        (RetryDecision::GiveUp, *s)
    } else {
        let grown = s.interval_ms + s.interval_ms / 2;
        let next_interval = if grown > MAX_RETRY_INTERVAL_MS {
            MAX_RETRY_INTERVAL_MS
        } else {
            grown
        };
        (
            RetryDecision::RetryAfter(s.interval_ms),
            BackoffState {
                elapsed_ms: s.elapsed_ms + s.interval_ms,
                interval_ms: next_interval,
            },
        )
    }
}

/// Every retry makes progress: the granted delay is positive and the slept
/// total strictly grows, so the elapsed bound is reached after finitely many
/// retries.
pub proof fn lemma_retry_progress(s: BackoffState, r: (RetryDecision, BackoffState), d: u64)
    requires
        backoff_wf(s),
        r.0 == RetryDecision::RetryAfter(d),
        d == s.interval_ms,
        r.1.elapsed_ms == s.elapsed_ms + s.interval_ms,
    ensures
        d >= 1,
        r.1.elapsed_ms > s.elapsed_ms,
{
}

} // verus!
