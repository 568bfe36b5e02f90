//! Storage dispatch: the two supported operations, the normalized outcome
//! type, the query templates the dispatcher declares at startup, and the
//! normalization of the backing store's heterogeneous results into outcomes.

use vstd::prelude::*;
use crate::text::is_utf8;

verus! {

/// A decoded client request, immutable once constructed.
#[derive(Debug, PartialEq)]
pub enum Operation {
    Get { key: String },
    Put { key: String, value: Vec<u8> },
}

/// The normalized result of dispatching an `Operation` to the store,
/// consumed by the connection handler to build a response.
#[derive(Debug, PartialEq)]
pub enum Outcome {
    Value(Vec<u8>),
    Absent,
    Acknowledged,
    Failure(String),
}

/// Mathematical model of an `Outcome`.
pub ghost enum OutcomeModel {
    Value(Seq<u8>),
    Absent,
    Acknowledged,
    Failure(Seq<char>),
}

impl View for Outcome {
    type V = OutcomeModel;

    open spec fn view(&self) -> OutcomeModel {
        match self {
            Outcome::Value(v) => OutcomeModel::Value(v@),
            Outcome::Absent => OutcomeModel::Absent,
            Outcome::Acknowledged => OutcomeModel::Acknowledged,
            Outcome::Failure(m) => OutcomeModel::Failure(m@),
        }
    }
}

/// The state of the backing store, as the dispatcher sees it: the mapping
/// from keys to stored values.
pub type StoreMap = Map<Seq<char>, Seq<u8>>;

/// The failure message attached to a `set` whose value is not valid UTF-8.
pub open spec fn invalid_value_msg() -> Seq<char> {
    "value is not valid utf-8"@
}

/// How a read result from a reachable store is normalized: a row yields its
/// value, an empty result means the key is absent, an execution error is
/// surfaced as a failure carrying the error text.
pub open spec fn spec_normalize_get(res: Result<Option<Seq<u8>>, Seq<char>>) -> OutcomeModel {
    match res {
        Ok(Some(v)) => OutcomeModel::Value(v),
        Ok(None) => OutcomeModel::Absent,
        Err(e) => OutcomeModel::Failure(e),
    }
}

/// How a write result is normalized: success is acknowledged, an execution
/// error is surfaced as a failure carrying the error text.
pub open spec fn spec_normalize_set(res: Result<(), Seq<char>>) -> OutcomeModel {
    match res {
        Ok(u) => OutcomeModel::Acknowledged,
        Err(e) => OutcomeModel::Failure(e),
    }
}

/// What a reachable store answers to the cached read operation for `key`.
pub open spec fn spec_read_result(m: StoreMap, key: Seq<char>) -> Result<
    Option<Seq<u8>>,
    Seq<char>,
> {
    if m.contains_key(key) {
        Ok(Some(m[key]))
    } else {
        Ok(None)
    }
}

/// The outcome of `get(key)` against a reachable store in state `m`.
pub open spec fn dispatch_get(m: StoreMap, key: Seq<char>) -> OutcomeModel {
    spec_normalize_get(spec_read_result(m, key))
}

/// The outcome of `set(key, value)` against a reachable store in state `m`,
/// and the store state it leaves behind: a valid UTF-8 value is upserted and
/// acknowledged; an invalid one is rejected without touching the store.
pub open spec fn dispatch_set(m: StoreMap, key: Seq<char>, value: Seq<u8>) -> (StoreMap, OutcomeModel) {
    if is_utf8(value) {
        (m.insert(key, value), OutcomeModel::Acknowledged)
    } else {
        (m, OutcomeModel::Failure(invalid_value_msg()))
    }
}

/// The store state and outcome one `Operation` produces against a reachable
/// store in state `m`.
pub open spec fn spec_dispatch(m: StoreMap, op: Operation) -> (StoreMap, OutcomeModel) {
    match op {
        Operation::Get { key } => (m, dispatch_get(m, key@)),
        Operation::Put { key, value } => dispatch_set(m, key@, value@),
    }
}

/// Round trip: on a reachable store, `set(k, v)` followed by `get(k)` with no
/// intervening write to `k` returns exactly `v`.
pub proof fn lemma_set_then_get_round_trip(m: StoreMap, k: Seq<char>, v: Seq<u8>)
    requires
        is_utf8(v),
    ensures
        dispatch_set(m, k, v).1 == OutcomeModel::Acknowledged,
        dispatch_get(dispatch_set(m, k, v).0, k) == OutcomeModel::Value(v),
{
}

/// A key never written reads back as `Absent` on a reachable store, never as
/// a failure.
pub proof fn lemma_get_unwritten_absent(m: StoreMap, k: Seq<char>)
    requires
        !m.contains_key(k),
    ensures
        dispatch_get(m, k) == OutcomeModel::Absent,
        !(dispatch_get(m, k) matches OutcomeModel::Failure(e)),
{
}

/// Normalizes the raw result of the cached read operation.
pub fn normalize_get_result(res: Result<Option<Vec<u8>>, String>) -> (o: Outcome)
    ensures
        o@ == spec_normalize_get(
            match res {
                Ok(Some(v)) => Ok(Some(v@)),
                Ok(None) => Ok(None),
                Err(e) => Err(e@),
            },
        ),
{
    match res {
        Ok(Some(v)) => Outcome::Value(v),
        Ok(None) => Outcome::Absent,
        Err(e) => Outcome::Failure(e),
    }
}

/// Normalizes the raw result of the cached write operation.
pub fn normalize_set_result(res: Result<(), String>) -> (o: Outcome)
    ensures
        o@ == spec_normalize_set(
            match res {
                Ok(u) => Ok(()),
                Err(e) => Err(e@),
            },
        ),
{
    match res {
        Ok(u) => Outcome::Acknowledged,
        Err(e) => Outcome::Failure(e),
    }
}

/// The failure outcome for a `set` whose value is not valid UTF-8.
pub fn invalid_value_failure() -> (o: Outcome)
    ensures
        o@ == OutcomeModel::Failure(invalid_value_msg()),
{
    Outcome::Failure("value is not valid utf-8".to_owned())
}

/// The query template the dispatcher declares for `get`: select the value
/// bound to a key.
pub fn select_template() -> (s: String)
    ensures
        s@ == "select value from scired.strings where key=?"@,
{
    "select value from scired.strings where key=?".to_owned()
}

/// The query template the dispatcher declares for `set`: upsert a key/value
/// pair.
pub fn upsert_template() -> (s: String)
    ensures
        s@ == "insert into scired.strings (key, value) values (?, ?)"@,
{
    "insert into scired.strings (key, value) values (?, ?)".to_owned()
}

} // verus!
