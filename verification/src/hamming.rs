//! Hamming distance between digests.
//!
//! The distance between two byte sequences is the number of differing bit
//! positions over their common prefix: the sum of the population counts of
//! the bytewise XORs.  A good digest flips about half of its bits for a
//! small input change, so the distance's deviation from half the digest
//! width is the quantity of interest.

use vstd::prelude::*;

verus! {

/// How many bits of `b` are set.
pub open spec fn pop_count8(b: u8) -> int {
    (b & 1) + ((b >> 1) & 1) + ((b >> 2) & 1) + ((b >> 3) & 1) + ((b >> 4) & 1) + ((b >> 5) & 1) + (
    (b >> 6) & 1) + ((b >> 7) & 1)
}

/// The Hamming distance over the first `n` byte pairs of `a` and `b`.
pub open spec fn hamming_upto(a: Seq<u8>, b: Seq<u8>, n: int) -> int
    decreases n,
{
    if n <= 0 {
        0
    } else {
        hamming_upto(a, b, n - 1) + pop_count8(a[n - 1] ^ b[n - 1])
    }
}

/// The length of the common prefix of `a` and `b`: the shorter length.
pub open spec fn common_len(a: Seq<u8>, b: Seq<u8>) -> int {
    if a.len() <= b.len() {
        a.len() as int
    } else {
        b.len() as int
    }
}

/// The Hamming distance between `a` and `b`: differing bit positions over
/// their common prefix.
pub open spec fn hamming_of(a: Seq<u8>, b: Seq<u8>) -> int {
    hamming_upto(a, b, common_len(a, b))
}

/// The number of set bits in one byte.
fn byte_ones(b: u8) -> (r: u32)
    ensures
        r == pop_count8(b),
        r <= 8,
{
    proof {
        assert((b & 1) <= 1 && ((b >> 1) & 1) <= 1 && ((b >> 2) & 1) <= 1 && ((b >> 3) & 1) <= 1
            && ((b >> 4) & 1) <= 1 && ((b >> 5) & 1) <= 1 && ((b >> 6) & 1) <= 1 && ((b >> 7) & 1)
            <= 1) by (bit_vector);
    }
    ((b & 1) + ((b >> 1) & 1) + ((b >> 2) & 1) + ((b >> 3) & 1) + ((b >> 4) & 1) + ((b >> 5) & 1)
        + ((b >> 6) & 1) + ((b >> 7) & 1)) as u32
}

/// The number of differing bit positions between `a` and `b`, over their
/// common prefix.
pub fn hamming_distance(a: &[u8], b: &[u8]) -> (r: u32)
    requires
        8 * common_len(a@, b@) <= u32::MAX,
    ensures
        r == hamming_of(a@, b@),
        r <= 8 * common_len(a@, b@),
{
    let n: usize = if a.len() <= b.len() {
        a.len()
    } else {
        b.len()
    };
    let mut sum: u32 = 0;
    let mut i: usize = 0;
    while i < n
        invariant
            i <= n,
            n <= a@.len() && n <= b@.len(),
            n as int == common_len(a@, b@),
            8 * (n as int) <= u32::MAX,
            sum == hamming_upto(a@, b@, i as int),
            sum <= 8 * i,
        decreases n - i,
    {
        let ones = byte_ones(a[i] ^ b[i]);
        sum = sum + ones;
        i = i + 1;
    }
    sum
}

/// How far a Hamming distance falls from the ideal of half the digest width.
pub fn closeness_to_50_percent(distance: u32, digest_bits: u32) -> (r: i32)
    requires
        distance <= i32::MAX,
    ensures
        r == if distance >= digest_bits / 2 {
            distance - digest_bits / 2
        } else {
            digest_bits / 2 - distance
        },
{
    let ideal = (digest_bits / 2) as i32;
    let diff = distance as i32 - ideal;
    if diff < 0 {
        -diff
    } else {
        diff
    }
}

} // verus!
