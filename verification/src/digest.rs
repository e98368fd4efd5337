//! Digest functions as swappable collaborators.
//!
//! The search engine only needs a deterministic map from a byte message to a
//! fixed-width digest.  `Digester` states that capability; `Md5Digester`
//! supplies it from the MD5 primitive, and `ConstantDigester` is a degenerate
//! digest that collides immediately, for exercising the engine's collision
//! path.

use vstd::prelude::*;

verus! {

/// What an MD5 invocation returns for a given message.  The digest is a
/// deterministic function of the input bytes alone.
pub uninterp spec fn md5_of(msg: Seq<u8>) -> Seq<u8>;

/// Relies on `md5::compute`: a deterministic 16-byte MD5 digest of the
/// input bytes, a function of the input alone.
#[verifier::external_body]
fn md5_bytes(msg: &[u8]) -> (r: Vec<u8>)
    ensures
        r@ == md5_of(msg@),
        r@.len() == 16,
{
    md5::compute(msg).0.to_vec()
}

/// A deterministic digest function: a map from a message to a digest of a
/// fixed byte width, with no other inputs.
pub trait Digester: Sized {
    /// The digest of a message, as a mathematical function.
    spec fn spec_digest(&self, msg: Seq<u8>) -> Seq<u8>;

    /// The byte width of every digest this function returns.
    spec fn spec_width(&self) -> nat;

    /// Computes the digest of `msg`.
    fn digest(&self, msg: &Vec<u8>) -> (r: Vec<u8>)
        ensures
            r@ == self.spec_digest(msg@),
            r@.len() == self.spec_width(),
    ;
}

/// The MD5 digest function: 16-byte digests.
pub struct Md5Digester {
}

impl Md5Digester {
    /// The MD5 digest function.
    pub fn new() -> (d: Self) {
        Md5Digester {  }
    }
}

impl Digester for Md5Digester {
    open spec fn spec_digest(&self, msg: Seq<u8>) -> Seq<u8> {
        md5_of(msg)
    }

    open spec fn spec_width(&self) -> nat {
        16
    }

    fn digest(&self, msg: &Vec<u8>) -> (r: Vec<u8>) {
        md5_bytes(msg.as_slice())
    }
}

/// A degenerate digest function that returns the same 16 zero bytes for
/// every message, so any two candidates collide at once.
pub struct ConstantDigester {
}

impl ConstantDigester {
    /// The constant digest function.
    pub fn new() -> (d: Self) {
        ConstantDigester {  }
    }
}

impl Digester for ConstantDigester {
    open spec fn spec_digest(&self, msg: Seq<u8>) -> Seq<u8> {
        Seq::new(16, |i: int| 0u8)
    }

    open spec fn spec_width(&self) -> nat {
        16
    }

    fn digest(&self, msg: &Vec<u8>) -> (r: Vec<u8>) {
        let mut v: Vec<u8> = Vec::new();
        let mut i: usize = 0;
        while i < 16
            invariant
                i <= 16,
                v@.len() == i,
                forall|k: int| 0 <= k < i ==> v@[k] == 0u8,
            decreases 16 - i,
        {
            v.push(0u8);
            i = i + 1;
        }
        assert(v@ =~= Seq::new(16, |i: int| 0u8));
        v
    }
}

} // verus!
