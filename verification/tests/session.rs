use scired::dispatch::{Operation, Outcome};
use scired::handler::{
    finish_close, handler_step, run_session, ConnEvent, HandlerAction, HandlerState,
};
use scired::store::StoreModel;

fn get(key: &str) -> ConnEvent {
    ConnEvent::Request(Operation::Get {
        key: key.to_string(),
    })
}

fn put(key: &str, value: &[u8]) -> ConnEvent {
    ConnEvent::Request(Operation::Put {
        key: key.to_string(),
        value: value.to_vec(),
    })
}

#[test]
fn set_then_get_round_trips() {
    let mut store = StoreModel::new();
    assert_eq!(store.set("k".to_string(), b"v".to_vec()), Outcome::Acknowledged);
    assert_eq!(store.get(&"k".to_string()), Outcome::Value(b"v".to_vec()));
}

#[test]
fn overwrite_returns_the_newest_value() {
    let mut store = StoreModel::new();
    store.set("k".to_string(), b"old".to_vec());
    store.set("k".to_string(), b"new".to_vec());
    assert_eq!(store.get(&"k".to_string()), Outcome::Value(b"new".to_vec()));
}

#[test]
fn unwritten_key_reads_absent_not_failure() {
    let mut store = StoreModel::new();
    store.set("other".to_string(), b"v".to_vec());
    let o = store.get(&"never-written".to_string());
    assert_eq!(o, Outcome::Absent);
    assert!(!matches!(o, Outcome::Failure(_)));
}

#[test]
fn invalid_utf8_set_fails_and_leaves_store_unchanged() {
    let mut store = StoreModel::new();
    let o = store.set("k".to_string(), vec![0xff, 0xfe]);
    assert_eq!(
        o,
        Outcome::Failure("value is not valid utf-8".to_string())
    );
    assert_eq!(store.get(&"k".to_string()), Outcome::Absent);
}

#[test]
fn supported_request_is_dispatched_and_stays_active() {
    let (next, action) = handler_step(
        HandlerState::Active,
        get("a"),
    );
    assert_eq!(next, HandlerState::Active);
    assert_eq!(
        action,
        HandlerAction::Dispatch(Operation::Get {
            key: "a".to_string()
        })
    );
}

#[test]
fn shutdown_while_idle_closes_without_response() {
    let (next, action) = handler_step(HandlerState::Active, ConnEvent::ShutdownNotified);
    assert_eq!(next, HandlerState::Closing);
    assert_eq!(action, HandlerAction::CloseConnection);
    assert_eq!(finish_close(next), HandlerState::Closed);
}

#[test]
fn end_of_stream_decode_error_and_unsupported_all_close() {
    for event in [
        ConnEvent::EndOfStream,
        ConnEvent::DecodeError,
        ConnEvent::Unsupported,
    ] {
        let (next, action) = handler_step(HandlerState::Active, event);
        assert_eq!(next, HandlerState::Closing);
        assert_eq!(action, HandlerAction::CloseConnection);
    }
}

#[test]
fn scenario_set_get_missing_then_unsupported() {
    let mut store = StoreModel::new();
    let events = vec![
        put("a", b"1"),
        get("a"),
        get("missing"),
        ConnEvent::Unsupported,
        get("a"),
    ];
    let (responses, state) = run_session(&mut store, events);
    assert_eq!(
        responses,
        vec![
            Outcome::Acknowledged,
            Outcome::Value(b"1".to_vec()),
            Outcome::Absent,
        ]
    );
    assert_eq!(state, HandlerState::Closed);
    assert_eq!(store.get(&"a".to_string()), Outcome::Value(b"1".to_vec()));
}

#[test]
fn session_stops_at_shutdown_and_writes_nothing_more() {
    let mut store = StoreModel::new();
    let events = vec![
        put("a", b"1"),
        ConnEvent::ShutdownNotified,
        get("a"),
    ];
    let (responses, state) = run_session(&mut store, events);
    assert_eq!(responses, vec![Outcome::Acknowledged]);
    assert_eq!(state, HandlerState::Closed);
}

#[test]
fn session_without_closing_event_stays_active() {
    let mut store = StoreModel::new();
    let events = vec![put("a", b"1"), get("a")];
    let (responses, state) = run_session(&mut store, events);
    assert_eq!(responses.len(), 2);
    assert_eq!(state, HandlerState::Active);
}

#[test]
fn requests_are_served_in_order() {
    let mut store = StoreModel::new();
    let events = vec![
        put("k", b"first"),
        get("k"),
        put("k", b"second"),
        get("k"),
        ConnEvent::EndOfStream,
    ];
    let (responses, state) = run_session(&mut store, events);
    assert_eq!(
        responses,
        vec![
            Outcome::Acknowledged,
            Outcome::Value(b"first".to_vec()),
            Outcome::Acknowledged,
            Outcome::Value(b"second".to_vec()),
        ]
    );
    assert_eq!(state, HandlerState::Closed);
}
