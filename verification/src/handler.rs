//! The per-connection handler: a state machine that races "next decoded
//! request" against "shutdown notified" each iteration, dispatches supported
//! requests one at a time, and closes the connection on end-of-stream, on
//! malformed input, on an unsupported request kind, or on shutdown.

use vstd::prelude::*;
use crate::dispatch::{spec_dispatch, Operation, Outcome, OutcomeModel, StoreMap};
use crate::store::StoreModel;

verus! {

/// The lifecycle state of one connection handler: `Active` while requests
/// are being served, `Closing` once the connection is being torn down,
/// `Closed` when the handler has released its completion token; `Closed` is
/// terminal.
#[derive(Clone, Copy, PartialEq, Eq, Structural, Debug)]
pub enum HandlerState {
    Active,
    Closing,
    Closed,
}

/// What an `Active` handler's per-iteration race resolved to.
#[derive(Debug, PartialEq)]
pub enum ConnEvent {
    /// The next request was decoded and is one of the two supported kinds.
    Request(Operation),
    /// The next request was decoded but is not a supported kind.
    Unsupported,
    /// The peer closed the connection: decoding reached end-of-stream.
    EndOfStream,
    /// The request bytes were malformed.
    DecodeError,
    /// The shutdown notification won the race.
    ShutdownNotified,
}

/// What the handler does next after one iteration's event.
#[derive(Debug, PartialEq)]
pub enum HandlerAction {
    /// Dispatch the operation to the store and write the outcome's response
    /// before taking up the next request.
    Dispatch(Operation),
    /// Close the connection without writing a further response.
    CloseConnection,
}

/// The transition an `Active` handler takes on one event: a supported request
/// keeps it active and is dispatched; every other event — end-of-stream,
/// malformed input, an unsupported request kind, or a shutdown notification —
/// moves it to `Closing` with the connection closed and nothing written.
pub open spec fn spec_handler_step(event: ConnEvent) -> (HandlerState, HandlerAction) {
    match event {
        ConnEvent::Request(op) => (HandlerState::Active, HandlerAction::Dispatch(op)),
        _ => (HandlerState::Closing, HandlerAction::CloseConnection),
    }
}

/// One iteration of an `Active` handler.
pub fn handler_step(state: HandlerState, event: ConnEvent) -> (r: (HandlerState, HandlerAction))
    requires
        state == HandlerState::Active,
    ensures
        r == spec_handler_step(event),
{
    match event {
        ConnEvent::Request(op) => (HandlerState::Active, HandlerAction::Dispatch(op)),
        ConnEvent::Unsupported => (HandlerState::Closing, HandlerAction::CloseConnection),
        ConnEvent::EndOfStream => (HandlerState::Closing, HandlerAction::CloseConnection),
        ConnEvent::DecodeError => (HandlerState::Closing, HandlerAction::CloseConnection),
        ConnEvent::ShutdownNotified => (HandlerState::Closing, HandlerAction::CloseConnection),
    }
}

/// A `Closing` handler reaches `Closed` once any in-flight write has
/// completed or been abandoned; only then is its completion token released.
pub fn finish_close(state: HandlerState) -> (r: HandlerState)
    requires
        state == HandlerState::Closing,
    ensures
        r == HandlerState::Closed,
{
    HandlerState::Closed
}

/// A handler notified of shutdown while idle (no request in flight) leaves
/// `Active` for `Closing` with its connection closed, and dispatches
/// nothing — so no further response is written.
pub proof fn lemma_shutdown_closes_without_response()
    ensures
        spec_handler_step(ConnEvent::ShutdownNotified).0 == HandlerState::Closing,
        forall|op: Operation|
            spec_handler_step(ConnEvent::ShutdownNotified).1 != HandlerAction::Dispatch(op),
{
}

/// The store states, the responses written, and the end state of a whole
/// connection whose per-iteration races resolve to `events`, starting from
/// store state `m`: requests are served strictly in order, and everything
/// after the first closing event is never consumed.
pub open spec fn spec_session(m: StoreMap, events: Seq<ConnEvent>) -> (
    StoreMap,
    Seq<OutcomeModel>,
    HandlerState,
)
    decreases events.len(),
{
    if events.len() == 0 {
        (m, Seq::<OutcomeModel>::empty(), HandlerState::Active)
    } else {
        match events[0] {
            ConnEvent::Request(op) => {
                let stepped = spec_dispatch(m, op);
                let rest = spec_session(stepped.0, events.skip(1));
                (rest.0, seq![stepped.1] + rest.1, rest.2)
            },
            _ => (m, Seq::<OutcomeModel>::empty(), HandlerState::Closed),
        }
    }
}

/// Dispatches one supported operation against a reference store, the way the
/// handler hands a decoded request to the dispatch layer.
pub fn dispatch_operation(store: &mut StoreModel, op: Operation) -> (o: Outcome)
    ensures
        final(store)@ == spec_dispatch(old(store)@, op).0,
        o@ == spec_dispatch(old(store)@, op).1,
{
    match op {
        Operation::Get { key } => store.get(&key),
        Operation::Put { key, value } => store.set(key, value),
    }
}

/// Runs one connection against a reference store: each supported request is
/// dispatched and its response recorded before the next event is taken up;
/// the first closing event ends the session, and the handler then reaches
/// `Closed`. If the events run out first, the handler is still `Active`.
pub fn run_session(store: &mut StoreModel, events: Vec<ConnEvent>) -> (r: (
    Vec<Outcome>,
    HandlerState,
))
    ensures
        final(store)@ == spec_session(old(store)@, events@).0,
        r.0@.map_values(|o: Outcome| o@) == spec_session(old(store)@, events@).1,
        r.1 == spec_session(old(store)@, events@).2,
{
    let ghost m0 = store@;
    let ghost evs0 = events@;
    let mut evs = events;
    let mut outs: Vec<Outcome> = Vec::new();
    let mut state = HandlerState::Active;
    proof {
        assert(outs@.map_values(|o: Outcome| o@) + spec_session(m0, evs0).1 =~= spec_session(
            m0,
            evs0,
        ).1);
    }
    loop
        invariant
            m0 == old(store)@,
            evs0 == events@,
            state == HandlerState::Active,
            spec_session(m0, evs0).0 == spec_session(store@, evs@).0,
            spec_session(m0, evs0).1 == outs@.map_values(|o: Outcome| o@) + spec_session(
                store@,
                evs@,
            ).1,
            spec_session(m0, evs0).2 == spec_session(store@, evs@).2,
        decreases evs@.len(),
    {
        if evs.len() == 0 {
            proof {
                assert(outs@.map_values(|o: Outcome| o@) + spec_session(store@, evs@).1
                    =~= outs@.map_values(|o: Outcome| o@));
            }
            return (outs, state);
        }
        let ghost evs_a = evs@;
        let ghost pre = store@;
        let event = evs.remove(0);
        proof {
            assert(evs@ =~= evs_a.skip(1));
        }
        match event {
            ConnEvent::Request(op) => {
                let o = dispatch_operation(store, op);
                let ghost outs_a = outs@;
                outs.push(o);
                proof {
                    assert(evs_a[0] == ConnEvent::Request(op));
                    assert(spec_session(pre, evs_a).1 == seq![o@] + spec_session(store@, evs@).1);
                    assert(outs@.map_values(|x: Outcome| x@) =~= outs_a.map_values(|x: Outcome| x@)
                        + seq![o@]);
                    assert(outs_a.map_values(|x: Outcome| x@) + (seq![o@] + spec_session(
                        store@,
                        evs@,
                    ).1) =~= (outs_a.map_values(|x: Outcome| x@) + seq![o@]) + spec_session(
                        store@,
                        evs@,
                    ).1);
                }
            },
            _ => {
                let stepped = handler_step(state, event);
                let closed = finish_close(stepped.0);
                proof {
                    assert(spec_session(pre, evs_a).1 =~= Seq::<OutcomeModel>::empty());
                    assert(outs@.map_values(|x: Outcome| x@) + Seq::<OutcomeModel>::empty()
                        =~= outs@.map_values(|x: Outcome| x@));
                }
                return (outs, closed);
            },
        }
    }
}

} // verus!
