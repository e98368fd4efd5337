//! The collision search loop.
//!
//! For a given truncation width the loop drives generator, digest function,
//! truncator and tracker until two candidates share a truncated value or an
//! attempt ceiling is passed.  The outcome is either a collision report with
//! the first pair of colliding candidates, or a capped sentinel.

use crate::digest::Digester;
use crate::digest::Md5Digester;
use crate::digest::md5_of;
use crate::generator::MessageGenerator;
use crate::generator::candidate_message;
use crate::hexfmt::hex_of;
use crate::hexfmt::to_hex;
use crate::hexfmt::to_hex_prefix;
use crate::tracker::CollisionTracker;
use crate::truncate::bytes_needed;
use crate::truncate::lemma_truncate_bounded;
use crate::truncate::truncate_hash;
use crate::truncate::truncate_spec;
use vstd::bytes::spec_u64_to_le_bytes;
use vstd::prelude::*;
use vstd::relations::injective_on;
use vstd::set_lib::lemma_int_range;
use vstd::set_lib::lemma_len_subset;
use vstd::set_lib::lemma_map_size;
use vstd::set_lib::set_int_range;

verus! {

/// The attempt ceiling of a full search: comfortably above the birthday
/// estimate for every tested width, while still bounding the runtime.
pub const SEARCH_CAP: u64 = 10000000;

/// The truncated value of candidate `i` under digest function `d`.
pub open spec fn trunc_of<D: Digester>(d: &D, i: u64, bits: u32) -> u64 {
    truncate_spec(d.spec_digest(spec_u64_to_le_bytes(i)), bits)
}

/// The hex rendering of candidate `i`'s digest under digest function `d`.
pub open spec fn digest_hex<D: Digester>(d: &D, i: u64) -> Seq<char> {
    hex_of(d.spec_digest(spec_u64_to_le_bytes(i)))
}

/// How many hex digits of the digest the colliding bit span covers.
pub open spec fn matched_chars(bits: u32) -> int {
    (bits + 3) / 4
}

/// The truncated MD5 value of candidate `i`.
pub open spec fn md5_trunc(i: u64, bits: u32) -> u64 {
    truncate_spec(md5_of(spec_u64_to_le_bytes(i)), bits)
}

/// A collision found between two candidate messages, or the capped sentinel
/// with zeroed indices and "not found" hash fields.
pub struct CollisionInfo {
    /// Index of the first candidate of the colliding pair (the earlier one).
    pub msg1: u64,
    /// Index of the second candidate of the colliding pair.
    pub msg2: u64,
    /// How many candidates were generated before the search stopped.
    pub attempts: u64,
    /// Full digest of the first candidate, in lowercase hex.
    pub full_hash1: String,
    /// Full digest of the second candidate, in lowercase hex.
    pub full_hash2: String,
    /// The hex digits covering the colliding low bits of the second digest.
    pub matched_part: String,
}

/// How a search ended: with a genuine collision, or by passing the attempt
/// ceiling with every truncated value still distinct.
pub enum SearchOutcome {
    /// Two distinct candidates shared a truncated value.
    Found(CollisionInfo),
    /// The ceiling was passed; the payload is the number of attempts made.
    Capped(u64),
}

/// Law: pigeonhole bound on a truncated digest space.  If the candidates
/// 1 ..= n have pairwise distinct truncated values at a width below 64 bits,
/// then n is at most 2^bits, since each value lies below 2^bits.
pub proof fn lemma_truncated_pigeonhole<D: Digester>(d: &D, bits: u32, n: u64)
    requires
        1 <= bits < 64,
        forall|i: u64, j: u64|
            1 <= i < j <= n ==> #[trigger] trunc_of(d, i, bits) != #[trigger] trunc_of(
                d,
                j,
                bits,
            ),
    ensures
        n <= (1u64 << (bits as u64)),
{
    let m = 1u64 << (bits as u64);
    let f = |i: int| trunc_of(d, i as u64, bits);
    let dom = set_int_range(1, n as int + 1);
    lemma_int_range(1, n as int + 1);
    assert forall|x: int, y: int| dom.contains(x) && dom.contains(y) && #[trigger] f(x)
        == #[trigger] f(y) implies x == y by {
        if x < y {
            assert(trunc_of(d, x as u64, bits) != trunc_of(d, y as u64, bits));
        } else if y < x {
            assert(trunc_of(d, y as u64, bits) != trunc_of(d, x as u64, bits));
        }
    }
    assert(injective_on(f, dom));
    let img = dom.map(f);
    lemma_map_size(dom, img, f);
    let g = |i: int| i as u64;
    let rng_dom = set_int_range(0, m as int);
    lemma_int_range(0, m as int);
    assert(injective_on(g, rng_dom));
    let rng = rng_dom.map(g);
    lemma_map_size(rng_dom, rng, g);
    assert forall|v: u64| #[trigger] img.contains(v) implies rng.contains(v) by {
        let i = choose|i: int| dom.contains(i) && f(i) == v;
        lemma_truncate_bounded(d.spec_digest(spec_u64_to_le_bytes(i as u64)), bits);
        assert(trunc_of(d, i as u64, bits) < m);
        assert(rng_dom.contains(v as int) && g(v as int) == v);
    }
    lemma_len_subset(img, rng);
}

/// Runs the collision search under digest function `d` at width `bits`,
/// giving up after `cap` candidates have failed to produce a collision.
///
/// A `Found` outcome reports the first collision: `msg2` is the first
/// candidate whose truncated value repeats an earlier one, and `msg1` is the
/// first candidate that produced that value.  A `Capped` outcome certifies
/// that all `cap + 1` candidates tried had pairwise distinct truncated
/// values.  For widths below 64 bits with `2^bits <= cap`, the pigeonhole
/// principle makes a collision certain.
pub fn search_collision<D: Digester>(d: &D, bits: u32, cap: u64) -> (r: SearchOutcome)
    requires
        1 <= bits <= 64,
        cap < u64::MAX,
        d.spec_width() >= bytes_needed(bits),
    ensures
        match r {
            SearchOutcome::Found(info) => {
                &&& 1 <= info.msg1 < info.msg2
                &&& info.attempts == info.msg2
                &&& info.msg2 <= cap + 1
                &&& trunc_of(d, info.msg1, bits) == trunc_of(d, info.msg2, bits)
                &&& forall|i: u64, j: u64|
                    1 <= i < j < info.msg2 ==> #[trigger] trunc_of(d, i, bits)
                        != #[trigger] trunc_of(d, j, bits)
                &&& forall|i: u64|
                    1 <= i < info.msg1 ==> #[trigger] trunc_of(d, i, bits) != trunc_of(
                        d,
                        info.msg2,
                        bits,
                    )
                &&& info.full_hash1@ == digest_hex(d, info.msg1)
                &&& info.full_hash2@ == digest_hex(d, info.msg2)
                &&& info.matched_part@ == digest_hex(d, info.msg2).take(matched_chars(bits))
            },
            SearchOutcome::Capped(attempts) => {
                &&& attempts == cap + 1
                &&& forall|i: u64, j: u64|
                    1 <= i < j <= cap + 1 ==> #[trigger] trunc_of(d, i, bits)
                        != #[trigger] trunc_of(d, j, bits)
            },
        },
        bits < 64 ==> match r {
            SearchOutcome::Found(info) => info.attempts <= (1u64 << (bits as u64)) + 1,
            SearchOutcome::Capped(_) => true,
        },
        bits < 64 && (1u64 << (bits as u64)) <= cap ==> r is Found,
{
    let mut tracker = CollisionTracker::new();
    let mut gen = MessageGenerator::new();
    let mut counter: u64 = 0;
    loop
        invariant
            counter <= cap,
            gen.counter == counter,
            1 <= bits <= 64,
            cap < u64::MAX,
            d.spec_width() >= bytes_needed(bits),
            forall|i: u64|
                1 <= i <= counter ==> {
                    &&& #[trigger] tracker@.contains_key(trunc_of(d, i, bits))
                    &&& tracker@[trunc_of(d, i, bits)].0 == i
                    &&& tracker@[trunc_of(d, i, bits)].1@ == digest_hex(d, i)
                },
            forall|k: u64| #[trigger]
                tracker@.contains_key(k) ==> exists|i: u64|
                    1 <= i <= counter && trunc_of(d, i, bits) == k,
            forall|i: u64, j: u64|
                1 <= i < j <= counter ==> #[trigger] trunc_of(d, i, bits) != #[trigger] trunc_of(
                    d,
                    j,
                    bits,
                ),
        decreases cap - counter,
    {
        counter = counter + 1;
        let c = gen.next_candidate();
        let message = candidate_message(c);
        let digest = d.digest(&message);
        let full_hash = to_hex(digest.as_slice());
        let truncated = truncate_hash(digest.as_slice(), bits);
        assert(truncated == trunc_of(d, counter, bits));
        match tracker.observe(truncated, c, full_hash.clone()) {
            Some(prior) => {
                let (first_counter, first_hash) = prior;
                proof {
                    let w = choose|i: u64|
                        1 <= i <= counter - 1 && trunc_of(d, i, bits) == truncated;
                    assert(first_counter == w);
                    assert(first_hash@ == digest_hex(d, w));
                    assert forall|i: u64| 1 <= i < first_counter implies #[trigger] trunc_of(
                        d,
                        i,
                        bits,
                    ) != trunc_of(d, counter, bits) by {
                        assert(trunc_of(d, i, bits) != trunc_of(d, w, bits));
                    }
                    if bits < 64 {
                        lemma_truncated_pigeonhole(d, bits, (counter - 1) as u64);
                    }
                }
                let hex_count = ((bits + 3) / 4) as usize;
                assert(hex_count <= 2 * digest@.len());
                let matched_part = to_hex_prefix(digest.as_slice(), hex_count);
                return SearchOutcome::Found(
                    CollisionInfo {
                        msg1: first_counter,
                        msg2: c,
                        attempts: c,
                        full_hash1: first_hash,
                        full_hash2: full_hash,
                        matched_part,
                    },
                );
            },
            None => {
                proof {
                    assert forall|i: u64| 1 <= i <= counter implies {
                        &&& #[trigger] tracker@.contains_key(trunc_of(d, i, bits))
                        &&& tracker@[trunc_of(d, i, bits)].0 == i
                        &&& tracker@[trunc_of(d, i, bits)].1@ == digest_hex(d, i)
                    } by {
                        if i < counter {
                            assert(tracker@.contains_key(trunc_of(d, i, bits)));
                        }
                    }
                }
            },
        }
        if counter > cap {
            proof {
                if bits < 64 && (1u64 << (bits as u64)) <= cap {
                    lemma_truncated_pigeonhole(d, bits, counter);
                    assert(false);
                }
            }
            return SearchOutcome::Capped(counter);
        }
    }
}

/// Searches for an MD5 collision at width `bits` under the standard attempt
/// ceiling, reporting the capped sentinel (zero indices, "not found" hash
/// fields) when no collision turned up.  For every width below 24 bits the
/// ceiling exceeds `2^bits`, so the result is then a genuine collision.
pub fn find_collision(bits: u32) -> (r: CollisionInfo)
    requires
        1 <= bits <= 64,
    ensures
        r.msg1 == 0 ==> {
            &&& r.msg2 == 0
            &&& r.attempts == SEARCH_CAP + 1
            &&& forall|i: u64, j: u64|
                1 <= i < j <= SEARCH_CAP + 1 ==> #[trigger] md5_trunc(i, bits)
                    != #[trigger] md5_trunc(j, bits)
            &&& r.full_hash1@ == "not found"@
            &&& r.full_hash2@ == "not found"@
            &&& r.matched_part@ == "not found"@
        },
        r.msg1 != 0 ==> {
            &&& 1 <= r.msg1 < r.msg2
            &&& r.attempts == r.msg2
            &&& r.msg2 <= SEARCH_CAP + 1
            &&& md5_trunc(r.msg1, bits) == md5_trunc(r.msg2, bits)
            &&& forall|i: u64, j: u64|
                1 <= i < j < r.msg2 ==> #[trigger] md5_trunc(i, bits) != #[trigger] md5_trunc(
                    j,
                    bits,
                )
            &&& forall|i: u64| 1 <= i < r.msg1 ==> #[trigger] md5_trunc(i, bits) != md5_trunc(
                r.msg2,
                bits,
            )
            &&& r.full_hash1@ == hex_of(md5_of(spec_u64_to_le_bytes(r.msg1)))
            &&& r.full_hash2@ == hex_of(md5_of(spec_u64_to_le_bytes(r.msg2)))
            &&& r.matched_part@ == hex_of(md5_of(spec_u64_to_le_bytes(r.msg2))).take(
                matched_chars(bits),
            )
        },
        bits < 64 ==> r.attempts <= (1u64 << (bits as u64)) + 1 || r.msg1 == 0,
        bits < 64 && (1u64 << (bits as u64)) <= SEARCH_CAP ==> r.msg1 != 0,
{
    let digester = Md5Digester::new();
    match search_collision(&digester, bits, SEARCH_CAP) {
        SearchOutcome::Found(info) => {
            proof {
                assert forall|i: u64, j: u64| 1 <= i < j < info.msg2 implies #[trigger] md5_trunc(
                    i,
                    bits,
                ) != #[trigger] md5_trunc(j, bits) by {
                    assert(trunc_of(&digester, i, bits) != trunc_of(&digester, j, bits));
                }
                assert forall|i: u64| 1 <= i < info.msg1 implies #[trigger] md5_trunc(i, bits)
                    != md5_trunc(info.msg2, bits) by {
                    assert(trunc_of(&digester, i, bits) != trunc_of(&digester, info.msg2, bits));
                }
            }
            info
        },
        SearchOutcome::Capped(attempts) => {
            proof {
                assert forall|i: u64, j: u64| 1 <= i < j <= SEARCH_CAP + 1 implies
                    #[trigger] md5_trunc(i, bits) != #[trigger] md5_trunc(j, bits) by {
                    assert(trunc_of(&digester, i, bits) != trunc_of(&digester, j, bits));
                }
            }
            CollisionInfo {
                msg1: 0,
                msg2: 0,
                attempts,
                full_hash1: "not found".to_owned(),
                full_hash2: "not found".to_owned(),
                matched_part: "not found".to_owned(),
            }
        },
    }
}

} // verus!
