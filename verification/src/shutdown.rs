//! Graceful-shutdown coordination: a one-shot monotonic "stop requested"
//! broadcast plus a completion-token count, shared by the server and every
//! live connection handler. The server's shutdown wait completes exactly
//! when every handler has reached `Closed` and released its token.

use vstd::prelude::*;
use crate::handler::HandlerState;

verus! {

/// The shared coordination state: whether a stop has been requested, and how
/// many completion tokens are still held — one per handler that has been
/// spawned and has not yet reached `Closed`.
pub struct ShutdownCoordinator {
    pub requested: bool,
    pub live: u64,
}

/// One handler's private subscription: whether this handler has observed the
/// shutdown notification. It observes at most one transition, from unnotified
/// to notified, during its lifetime.
pub struct ShutdownSubscription {
    pub notified: bool,
}

/// What requesting a stop does to the coordinator: the flag is set — and
/// stays set, the transition is monotonic — and the live tokens are
/// untouched.
pub open spec fn spec_request_stop(c: ShutdownCoordinator) -> ShutdownCoordinator {
    ShutdownCoordinator { requested: true, live: c.live }
}

impl ShutdownCoordinator {
    /// A coordinator with no stop requested and no live handler.
    pub fn new() -> (c: ShutdownCoordinator)
        ensures
            !c.requested,
            c.live == 0,
    {
        ShutdownCoordinator { requested: false, live: 0 }
    }

    /// Hands a fresh subscription to a newly spawned handler and takes its
    /// completion token. A handler spawned after the stop request observes
    /// the notification at once.
    pub fn subscribe(&mut self) -> (s: ShutdownSubscription)
        requires
            old(self).live < u64::MAX,
        ensures
            final(self).live == old(self).live + 1,
            final(self).requested == old(self).requested,
            s.notified == old(self).requested,
    {
        self.live = self.live + 1;
        ShutdownSubscription { notified: self.requested }
    }

    /// Requests a clean stop. Idempotent: the flag is monotonic, so a second
    /// call has no additional effect.
    pub fn request_stop(&mut self)
        ensures
            *final(self) == spec_request_stop(*old(self)),
    {
        self.requested = true;
    }

    /// Releases one completion token, as a handler reaching `Closed` does.
    pub fn release(&mut self)
        requires
            old(self).live > 0,
        ensures
            final(self).live == old(self).live - 1,
            final(self).requested == old(self).requested,
    {
        self.live = self.live - 1;
    }

    /// Whether every token has been released: the server's shutdown wait
    /// completes exactly when this holds.
    pub fn is_drained(&self) -> (b: bool)
        ensures
            b == (self.live == 0),
    {
        self.live == 0
    }
}

impl ShutdownSubscription {
    /// Whether this handler has already observed the shutdown notification.
    pub fn is_shutdown(&self) -> (b: bool)
        ensures
            b == self.notified,
    {
        self.notified
    }

    /// Records that the broadcast notification reached this subscription.
    /// Monotonic: once notified, a subscription never becomes unnotified.
    pub fn observe(&mut self)
        ensures
            final(self).notified,
    {
        self.notified = true;
    }
}

/// Requesting shutdown twice leaves exactly the state one request leaves.
pub proof fn lemma_request_stop_idempotent(c: ShutdownCoordinator)
    ensures
        spec_request_stop(spec_request_stop(c)) == spec_request_stop(c),
{
}

/// The number of handlers in `hs` that have not reached `Closed`.
pub open spec fn count_open(hs: Seq<HandlerState>) -> nat
    decreases hs.len(),
{
    if hs.len() == 0 {
        0
    } else {
        count_open(hs.drop_last()) + (if hs.last() == HandlerState::Closed {
            0nat
        } else {
            1nat
        })
    }
}

/// The coordinator tracks the handlers: one live token per handler that has
/// not reached `Closed`. The server's spawn/release discipline — `subscribe`
/// on spawn, `release` exactly on reaching `Closed` — maintains this.
pub open spec fn tokens_match(c: ShutdownCoordinator, hs: Seq<HandlerState>) -> bool {
    c.live == count_open(hs)
}

/// Spawning keeps the count honest: taking a token (`subscribe`) while the
/// new handler starts `Active` preserves the tracking invariant.
pub proof fn lemma_subscribe_preserves_tracking(c: ShutdownCoordinator, hs: Seq<HandlerState>)
    requires
        tokens_match(c, hs),
        c.live < u64::MAX,
    ensures
        tokens_match(
            ShutdownCoordinator { requested: c.requested, live: (c.live + 1) as u64 },
            hs.push(HandlerState::Active),
        ),
{
    assert(hs.push(HandlerState::Active).drop_last() =~= hs);
}

proof fn lemma_count_open_close_one(hs: Seq<HandlerState>, i: int)
    requires
        0 <= i < hs.len(),
        hs[i] != HandlerState::Closed,
    ensures
        count_open(hs) == count_open(hs.update(i, HandlerState::Closed)) + 1,
    decreases hs.len(),
{
    if i == hs.len() - 1 {
        assert(hs.update(i, HandlerState::Closed).drop_last() =~= hs.drop_last());
    } else {
        assert(hs.update(i, HandlerState::Closed).drop_last() =~= hs.drop_last().update(
            i,
            HandlerState::Closed,
        ));
        assert(hs.drop_last()[i] == hs[i]);
        lemma_count_open_close_one(hs.drop_last(), i);
    }
}

/// Closing keeps the count honest: when a handler that is not yet `Closed`
/// reaches `Closed` and releases its token, the tracking invariant is
/// preserved — and the release is always possible, since such a handler
/// means at least one live token.
pub proof fn lemma_close_preserves_tracking(c: ShutdownCoordinator, hs: Seq<HandlerState>, i: int)
    requires
        tokens_match(c, hs),
        0 <= i < hs.len(),
        hs[i] != HandlerState::Closed,
    ensures
        c.live > 0,
        tokens_match(
            ShutdownCoordinator { requested: c.requested, live: (c.live - 1) as u64 },
            hs.update(i, HandlerState::Closed),
        ),
{
    lemma_count_open_pos(hs, i);
    lemma_count_open_close_one(hs, i);
}

proof fn lemma_count_open_zero(hs: Seq<HandlerState>)
    requires
        count_open(hs) == 0,
    ensures
        forall|i: int| 0 <= i < hs.len() ==> hs[i] == HandlerState::Closed,
    decreases hs.len(),
{
    if hs.len() > 0 {
        lemma_count_open_zero(hs.drop_last());
        assert forall|i: int| 0 <= i < hs.len() implies hs[i] == HandlerState::Closed by {
            if i < hs.len() - 1 {
                assert(hs.drop_last()[i] == hs[i]);
            }
        }
    }
}

proof fn lemma_count_open_pos(hs: Seq<HandlerState>, i: int)
    requires
        0 <= i < hs.len(),
        hs[i] != HandlerState::Closed,
    ensures
        count_open(hs) > 0,
    decreases hs.len(),
{
    if i < hs.len() - 1 {
        assert(hs.drop_last()[i] == hs[i]);
        lemma_count_open_pos(hs.drop_last(), i);
    }
}

/// The shutdown wait completes only after every handler reaches `Closed`:
/// with the token count tracking the handlers, the coordinator is drained
/// exactly when no handler — none with a pending unanswered request
/// included — is still open.
pub proof fn lemma_drained_iff_all_closed(c: ShutdownCoordinator, hs: Seq<HandlerState>)
    requires
        tokens_match(c, hs),
    ensures
        (c.live == 0) <==> (forall|i: int| 0 <= i < hs.len() ==> hs[i] == HandlerState::Closed),
{
    if c.live == 0 {
        lemma_count_open_zero(hs);
    } else {
        if forall|i: int| 0 <= i < hs.len() ==> hs[i] == HandlerState::Closed {
            lemma_all_closed_count_zero(hs);
        }
    }
}

proof fn lemma_all_closed_count_zero(hs: Seq<HandlerState>)
    requires
        forall|i: int| 0 <= i < hs.len() ==> hs[i] == HandlerState::Closed,
    ensures
        count_open(hs) == 0,
    decreases hs.len(),
{
    if hs.len() > 0 {
        assert forall|i: int| 0 <= i < hs.drop_last().len() implies hs.drop_last()[i]
            == HandlerState::Closed by {
            assert(hs.drop_last()[i] == hs[i]);
        }
        lemma_all_closed_count_zero(hs.drop_last());
    }
}

} // verus!
