//! Birthday-paradox experiments on truncated cryptographic digests.
//!
//! The crate searches for two distinct inputs whose digests agree on a
//! configurable number of low-order bits, records how many attempts the
//! search took, and offers the supporting pieces: a deterministic message
//! generator, a digest truncator, a collision tracker, hex rendering,
//! a file-checksum helper and Hamming-distance arithmetic.

pub mod checksum;
pub mod digest;
pub mod generator;
pub mod hamming;
pub mod hexfmt;
pub mod search;
pub mod tracker;
pub mod truncate;
