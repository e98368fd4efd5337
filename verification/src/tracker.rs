//! First-occurrence tracking of truncated digest values.
//!
//! A `CollisionTracker` maps each truncated value to the first candidate
//! index that produced it, together with that candidate's full digest in hex.
//! Observing a value that is already present reports the stored entry and
//! leaves the map unchanged, so the first occurrence is never overwritten.

use std::collections::HashMap;
use vstd::prelude::*;

verus! {

/// Maps a truncated value to `(first candidate index, full digest hex)`.
pub struct CollisionTracker {
    seen: HashMap<u64, (u64, String)>,
}

impl View for CollisionTracker {
    type V = Map<u64, (u64, String)>;

    closed spec fn view(&self) -> Map<u64, (u64, String)> {
        self.seen@
    }
}

impl CollisionTracker {
    /// A fresh, empty tracker for one search.
    pub fn new() -> (t: Self)
        ensures
            t@ == Map::<u64, (u64, String)>::empty(),
    {
        CollisionTracker { seen: HashMap::new() }
    }

    /// How many distinct truncated values have been recorded.
    pub fn len(&self) -> (n: usize)
        ensures
            n == self@.dom().len(),
    {
        self.seen.len()
    }

    /// Records `value` as produced by candidate `candidate_index` with digest
    /// `full_hash`.  If `value` was seen before, returns the stored
    /// `(first index, first digest hex)` and changes nothing: the first
    /// occurrence is never overwritten by a later observation.
    pub fn observe(&mut self, value: u64, candidate_index: u64, full_hash: String) -> (r: Option<
        (u64, String),
    >)
        ensures
            old(self)@.contains_key(value) ==> r == Some(old(self)@[value]) && final(self)@ == old(self)@,
            !old(self)@.contains_key(value) ==> r is None && final(self)@ == old(self)@.insert(
                value,
                (candidate_index, full_hash),
            ),
    {
        if self.seen.contains_key(&value) {
            match self.seen.get(&value) {
                Some(p) => {
                    let prior = (p.0, p.1.clone());
                    assert(prior == old(self)@[value]);
                    Some(prior)
                },
                None => {
                    // `get` succeeds on a key that `contains_key` reported.
                    proof {
                        assert(false);
                    }
                    None
                },
            }
        } else {
            self.seen.insert(value, (candidate_index, full_hash));
            None
        }
    }
}

} // verus!
