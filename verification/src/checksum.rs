//! One-shot SHA-256 checksum of a byte sequence.
//!
//! The digest itself is an opaque collaborator; the crate renders it in hex
//! and compares it against an expected checksum string.

use crate::hexfmt::hex_of;
use crate::hexfmt::to_hex;
use sha2::Digest;
use vstd::prelude::*;

verus! {

/// What a SHA-256 invocation returns for given data.  The digest is a
/// deterministic function of the input bytes alone.
pub uninterp spec fn sha256_of(data: Seq<u8>) -> Seq<u8>;

/// Relies on `sha2::Sha256::digest`: a deterministic 32-byte SHA-256 digest
/// of the input bytes, a function of the input alone.
#[verifier::external_body]
fn sha256_bytes(data: &[u8]) -> (r: Vec<u8>)
    ensures
        r@ == sha256_of(data@),
        r@.len() == 32,
{
    sha2::Sha256::digest(data).as_slice().to_vec()
}

/// The SHA-256 digest of `data`, rendered as 64 lowercase hex digits.
pub fn sha256_hex(data: &[u8]) -> (r: String)
    ensures
        r@ == hex_of(sha256_of(data@)),
        r@.len() == 64,
{
    let digest = sha256_bytes(data);
    to_hex(digest.as_slice())
}

/// Whether the SHA-256 checksum of `data` matches `expected`, the digest
/// written as lowercase hex.
pub fn checksum_matches(data: &[u8], expected: &String) -> (r: bool)
    ensures
        r == (hex_of(sha256_of(data@)) == expected@),
{
    let computed = sha256_hex(data);
    computed.eq(expected)
}

} // verus!
