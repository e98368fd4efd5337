//! Projection of a digest onto its low-order bits.
//!
//! A digest is truncated by packing its first `ceil(bits / 8)` bytes (at most
//! eight) little-endian into a 64-bit accumulator and masking everything at
//! bit position `bits` and above.  Two digests collide at width `bits` iff
//! their truncated values are equal.

use vstd::prelude::*;

verus! {

/// How many digest bytes a truncation to `bits` bits reads.
pub open spec fn bytes_needed(bits: u32) -> int {
    (bits + 7) / 8
}

/// The first `n` bytes of `d`, packed little-endian: byte `i` contributes
/// `d[i] << (8 * i)`.
pub open spec fn pack_le(d: Seq<u8>, n: int) -> u64
    decreases n,
{
    if n <= 0 {
        0u64
    } else {
        pack_le(d, n - 1) | ((d[n - 1] as u64) << ((8 * (n - 1)) as u64))
    }
}

/// The mask that keeps exactly the low `bits` bits of a 64-bit value.
pub open spec fn mask_of(bits: u32) -> u64 {
    if bits >= 64 {
        u64::MAX
    } else {
        ((1u64 << (bits as u64)) - 1) as u64
    }
}

/// The low `bits` bits of digest `d`: the packed low bytes, masked.
pub open spec fn truncate_spec(d: Seq<u8>, bits: u32) -> u64 {
    pack_le(d, if bytes_needed(bits) <= 8 { bytes_needed(bits) } else { 8 }) & mask_of(bits)
}

/// Packs the first `ceil(bits / 8)` bytes of `hash` little-endian and masks
/// off every bit at position `bits` and above.
pub fn truncate_hash(hash: &[u8], bits: u32) -> (r: u64)
    requires
        1 <= bits <= 64,
        hash@.len() >= bytes_needed(bits),
    ensures
        r == truncate_spec(hash@, bits),
        bits < 64 ==> r < (1u64 << (bits as u64)),
{
    let bytes: usize = ((bits + 7) / 8) as usize;
    let n: usize = if bytes <= 8 {
        bytes
    } else {
        8
    };
    let mut result: u64 = 0;
    let mut i: usize = 0;
    while i < n
        invariant
            i <= n,
            n <= 8,
            n as int == if bytes_needed(bits) <= 8 { bytes_needed(bits) } else { 8 },
            hash@.len() >= n,
            result == pack_le(hash@, i as int),
        decreases n - i,
    {
        result = result | ((hash[i] as u64) << ((i * 8) as u64));
        i = i + 1;
    }
    let mask: u64 = if bits >= 64 {
        u64::MAX
    } else {
        let b64: u64 = bits as u64;
        proof {
            assert(1u64 << b64 >= 1) by (bit_vector)
                requires
                    b64 < 64,
            ;
        }
        (1u64 << b64) - 1
    };
    assert(mask == mask_of(bits));
    let r = result & mask;
    proof {
        lemma_truncate_bounded(hash@, bits);
    }
    r
}

/// Law: a truncated value has no set bits at position `bits` or above; for
/// `bits < 64` it is therefore strictly below `2^bits`.
pub proof fn lemma_truncate_bounded(d: Seq<u8>, bits: u32)
    requires
        1 <= bits <= 64,
    ensures
        forall|p: u64|
            bits <= p < 64 ==> #[trigger] ((truncate_spec(d, bits) >> p) & 1u64) == 0u64,
        bits < 64 ==> truncate_spec(d, bits) < (1u64 << (bits as u64)),
{
    let v = pack_le(d, if bytes_needed(bits) <= 8 { bytes_needed(bits) } else { 8 });
    let b = bits as u64;
    if bits < 64 {
        assert(v & (((1u64 << b) - 1) as u64) < (1u64 << b)) by (bit_vector)
            requires
                b < 64,
        ;
        assert(forall|p: u64|
            b <= p < 64 ==> #[trigger] (((v & (((1u64 << b) - 1) as u64)) >> p) & 1u64) == 0u64)
            by (bit_vector)
            requires
                b < 64,
        ;
    }
}

/// Law: truncation is a pure function of its inputs: identical digests and
/// identical widths yield identical truncated values.
pub proof fn lemma_truncate_pure(d1: Seq<u8>, d2: Seq<u8>, bits: u32)
    requires
        d1 == d2,
    ensures
        truncate_spec(d1, bits) == truncate_spec(d2, bits),
{
}

/// Law: at the full width of 64 bits the mask is all-ones and truncation
/// returns the packed low eight bytes unchanged.
pub proof fn lemma_truncate_full_width(d: Seq<u8>)
    ensures
        mask_of(64) == u64::MAX,
        truncate_spec(d, 64) == pack_le(d, 8),
{
    let v = pack_le(d, 8);
    assert(v & u64::MAX == v) by (bit_vector);
}

} // verus!
