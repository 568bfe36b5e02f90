//! An executable reference store: a key-value store whose behaviour is
//! exactly the dispatch semantics of `crate::dispatch`. It stands in for a
//! reachable backing store wherever the dispatch layer is exercised without
//! one, and pins down what `get` and `set` mean on a given store state.

use vstd::prelude::*;
use crate::dispatch::{dispatch_get, dispatch_set, invalid_value_failure, Outcome, StoreMap};
use crate::text::is_valid_utf8;

verus! {

/// The store state denoted by a write log: later entries win.
pub open spec fn log_map(s: Seq<(String, Vec<u8>)>) -> StoreMap
    decreases s.len(),
{
    if s.len() == 0 {
        Map::empty()
    } else {
        log_map(s.drop_last()).insert(s.last().0@, s.last().1@)
    }
}

/// A reference store: a log of accepted writes, read from the newest entry
/// backwards.
pub struct StoreModel {
    entries: Vec<(String, Vec<u8>)>,
}

impl View for StoreModel {
    type V = StoreMap;

    closed spec fn view(&self) -> StoreMap {
        log_map(self.entries@)
    }
}

proof fn lemma_log_map_last_match(s: Seq<(String, Vec<u8>)>, k: Seq<char>, i: int)
    requires
        0 <= i < s.len(),
        s[i].0@ == k,
        forall|j: int| i < j < s.len() ==> s[j].0@ != k,
    ensures
        log_map(s).contains_key(k),
        log_map(s)[k] == s[i].1@,
    decreases s.len(),
{
    if i == s.len() - 1 {
    } else {
        assert(s.drop_last()[i] == s[i]);
        lemma_log_map_last_match(s.drop_last(), k, i);
    }
}

proof fn lemma_log_map_no_match(s: Seq<(String, Vec<u8>)>, k: Seq<char>)
    requires
        forall|j: int| 0 <= j < s.len() ==> s[j].0@ != k,
    ensures
        !log_map(s).contains_key(k),
    decreases s.len(),
{
    if s.len() > 0 {
        lemma_log_map_no_match(s.drop_last(), k);
    }
}

impl StoreModel {
    /// An empty store: no key has ever been written.
    pub fn new() -> (s: StoreModel)
        ensures
            s@ == Map::<Seq<char>, Seq<u8>>::empty(),
    {
        StoreModel { entries: Vec::new() }
    }

    /// Executes the read operation: the outcome is exactly what a reachable
    /// store in state `self@` answers for `key`.
    pub fn get(&self, key: &String) -> (o: Outcome)
        ensures
            o@ == dispatch_get(self@, key@),
    {
        let n: usize = self.entries.len();
        let mut i: usize = n;
        loop
            invariant
                i <= n,
                n == self.entries@.len(),
                forall|j: int| i <= j < n ==> self.entries@[j].0@ != key@,
            decreases i,
        {
            if i == 0 {
                proof {
                    lemma_log_map_no_match(self.entries@, key@);
                }
                return Outcome::Absent;
            }
            i = i - 1;
            let entry = &self.entries[i];
            if entry.0 == *key {
                let value = entry.1.clone();
                proof {
                    lemma_log_map_last_match(self.entries@, key@, i as int);
                    assert(value@ =~= self.entries@[i as int].1@);
                }
                return Outcome::Value(value);
            }
        }
    }

    /// Executes the write operation: a valid UTF-8 value is upserted and
    /// acknowledged, an invalid one is rejected with a failure and leaves the
    /// store unchanged.
    pub fn set(&mut self, key: String, value: Vec<u8>) -> (o: Outcome)
        ensures
            final(self)@ == dispatch_set(old(self)@, key@, value@).0,
            o@ == dispatch_set(old(self)@, key@, value@).1,
    {
        if !is_valid_utf8(value.as_slice()) {
            return invalid_value_failure();
        }
        let ghost pre = self.entries@;
        self.entries.push((key, value));
        proof {
            assert(self.entries@.drop_last() =~= pre);
        }
        Outcome::Acknowledged
    }
}

} // verus!
