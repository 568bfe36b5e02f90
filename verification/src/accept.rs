//! The accept loop's retry policy: a failed accept is retried with capped
//! exponential backoff — the delay starts at a base, doubles on each
//! consecutive failure, and a failure arriving once the delay has grown
//! beyond the ceiling is fatal and terminates the server.

use vstd::prelude::*;

verus! {

/// First retry delay, in seconds, after a failed accept attempt.
pub const BACKOFF_BASE: u64 = 1;

/// The backoff ceiling, in seconds: a failure observed when the delay has
/// already grown beyond this gives the server up.
pub const BACKOFF_CEILING: u64 = 64;

/// The retry state of one accept attempt: the delay the next failure will
/// impose before the attempt is retried.
#[derive(Clone, Copy, PartialEq, Eq, Structural, Debug)]
pub struct AcceptState {
    pub backoff: u64,
}

/// What the accept loop decides after one accept attempt resolves.
#[derive(Clone, Copy, PartialEq, Eq, Structural, Debug)]
pub enum AcceptDecision {
    /// The accept succeeded: hand the connection to a fresh handler and keep
    /// accepting.
    Serve,
    /// The accept failed within the ceiling: pause this many seconds, then
    /// retry.
    RetryAfter(u64),
    /// The accept failed with the delay beyond the ceiling: fatal, the
    /// server's accept loop terminates with an error.
    GiveUp,
}

/// Well-formed retry state: the delay starts at the base and only doubles
/// while at or under the ceiling, so it never exceeds one doubling of it.
pub open spec fn wf_accept(s: AcceptState) -> bool {
    BACKOFF_BASE <= s.backoff <= 2 * BACKOFF_CEILING
}

/// One attempt's transition: success serves the connection and the next
/// attempt starts over at the base delay; a failure within the ceiling waits
/// out the current delay and doubles it; a failure beyond the ceiling gives
/// up with the state untouched.
pub open spec fn spec_accept_step(s: AcceptState, accepted: bool) -> (AcceptState, AcceptDecision) {
    if accepted {
        (AcceptState { backoff: BACKOFF_BASE }, AcceptDecision::Serve)
    } else if s.backoff > BACKOFF_CEILING {
        (s, AcceptDecision::GiveUp)
    } else {
        (AcceptState { backoff: (2 * s.backoff) as u64 }, AcceptDecision::RetryAfter(s.backoff))
    }
}

/// The retry state a fresh accept attempt starts from.
pub fn accept_start() -> (s: AcceptState)
    ensures
        s == (AcceptState { backoff: BACKOFF_BASE }),
        wf_accept(s),
{
    AcceptState { backoff: BACKOFF_BASE }
}

/// Advances the retry state after one accept attempt. Gives up exactly on a
/// failure whose delay has grown beyond the ceiling; transient failures only
/// back off, and a success always serves.
pub fn accept_step(state: &mut AcceptState, accepted: bool) -> (d: AcceptDecision)
    requires
        wf_accept(*old(state)),
    ensures
        (*final(state), d) == spec_accept_step(*old(state), accepted),
        wf_accept(*final(state)),
        (d == AcceptDecision::GiveUp) <==> (!accepted && old(state).backoff > BACKOFF_CEILING),
{
    if accepted {
        state.backoff = BACKOFF_BASE;
        AcceptDecision::Serve
    } else if state.backoff > BACKOFF_CEILING {
        AcceptDecision::GiveUp
    } else {
        let d = AcceptDecision::RetryAfter(state.backoff);
        state.backoff = 2 * state.backoff;
        d
    }
}

/// An unbroken run of failures from a fresh attempt retries with delays
/// 1, 2, 4, 8, 16, 32 and 64 seconds; the failure after the ceiling delay
/// has been served out — the eighth — is the one that gives up.
pub proof fn lemma_failure_run_gives_up_after_the_ceiling()
    ensures
        ({
            let s0 = AcceptState { backoff: BACKOFF_BASE };
            let r1 = spec_accept_step(s0, false);
            let r2 = spec_accept_step(r1.0, false);
            let r3 = spec_accept_step(r2.0, false);
            let r4 = spec_accept_step(r3.0, false);
            let r5 = spec_accept_step(r4.0, false);
            let r6 = spec_accept_step(r5.0, false);
            let r7 = spec_accept_step(r6.0, false);
            let r8 = spec_accept_step(r7.0, false);
            &&& r1.1 == AcceptDecision::RetryAfter(1u64)
            &&& r2.1 == AcceptDecision::RetryAfter(2u64)
            &&& r3.1 == AcceptDecision::RetryAfter(4u64)
            &&& r4.1 == AcceptDecision::RetryAfter(8u64)
            &&& r5.1 == AcceptDecision::RetryAfter(16u64)
            &&& r6.1 == AcceptDecision::RetryAfter(32u64)
            &&& r7.1 == AcceptDecision::RetryAfter(64u64)
            &&& r8.1 == AcceptDecision::GiveUp
        }),
{
}

/// Transient failure runs do not terminate the server: three consecutive
/// accept failures from a fresh attempt each back off, and a success after
/// them serves the connection.
pub proof fn lemma_three_failures_then_success_serves()
    ensures
        ({
            let s0 = AcceptState { backoff: BACKOFF_BASE };
            let r1 = spec_accept_step(s0, false);
            let r2 = spec_accept_step(r1.0, false);
            let r3 = spec_accept_step(r2.0, false);
            let r4 = spec_accept_step(r3.0, true);
            &&& r1.1 == AcceptDecision::RetryAfter(1u64)
            &&& r2.1 == AcceptDecision::RetryAfter(2u64)
            &&& r3.1 == AcceptDecision::RetryAfter(4u64)
            &&& r4.1 == AcceptDecision::Serve
        }),
{
}

} // verus!
