//! Deterministic candidate message generation.
//!
//! Candidates are the strictly increasing counter values 1, 2, 3, ...; each
//! one is hashed as its canonical eight-byte little-endian representation.
//! The sequence is a function of the counter alone, so a restarted generator
//! reproduces it exactly.

use vstd::bytes::spec_u64_to_le_bytes;
use vstd::bytes::u64_to_le_bytes;
use vstd::prelude::*;

verus! {

/// The candidate emitted at step `k` (counting from one): the counter value
/// `k` itself.
pub open spec fn spec_candidate(k: nat) -> u64 {
    k as u64
}

/// Produces the candidate sequence 1, 2, 3, ... as 64-bit counters.
pub struct MessageGenerator {
    /// How many candidates have been produced so far.
    pub counter: u64,
}

impl MessageGenerator {
    /// A fresh generator, before its first candidate.
    pub fn new() -> (g: Self)
        ensures
            g.counter == 0,
    {
        MessageGenerator { counter: 0 }
    }

    /// The next candidate: the successor of the internal counter.
    pub fn next_candidate(&mut self) -> (c: u64)
        requires
            old(self).counter < u64::MAX,
        ensures
            final(self).counter == old(self).counter + 1,
            c == final(self).counter,
            c == spec_candidate((old(self).counter + 1) as nat),
    {
        self.counter = self.counter + 1;
        self.counter
    }
}

/// The bytes that are hashed for a candidate: its canonical little-endian
/// serialization, eight bytes long.
pub fn candidate_message(c: u64) -> (m: Vec<u8>)
    ensures
        m@ == spec_u64_to_le_bytes(c),
        m@.len() == 8,
{
    proof {
        vstd::bytes::lemma_auto_spec_u64_to_from_le_bytes();
    }
    u64_to_le_bytes(c)
}

/// Law: the candidate sequence is deterministic.  The candidate emitted at a
/// given step is a function of the step number alone, so re-running the
/// generator from scratch reproduces an identical sequence.
pub proof fn lemma_generator_deterministic(k1: nat, k2: nat)
    requires
        k1 == k2,
    ensures
        spec_candidate(k1) == spec_candidate(k2),
{
}

/// Law: distinct counters serialize to distinct messages, so candidate
/// uniqueness is guaranteed by construction.
pub proof fn lemma_candidate_messages_distinct(c1: u64, c2: u64)
    requires
        c1 != c2,
    ensures
        spec_u64_to_le_bytes(c1) != spec_u64_to_le_bytes(c2),
{
    vstd::bytes::lemma_auto_spec_u64_to_from_le_bytes();
}

} // verus!
