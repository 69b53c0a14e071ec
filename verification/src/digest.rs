use vstd::prelude::*;

verus! {

/// The digest algorithms that a signer can announce.
#[derive(Debug, Clone, Copy, PartialEq, Eq, Structural)]
pub enum DigestAlgorithm {
    /// SHA-256 (32-byte digests).
    Sha256,
    /// SHA-384 (48-byte digests).
    Sha384,
    /// SHA-512 (64-byte digests).
    Sha512,
}

} // verus!
