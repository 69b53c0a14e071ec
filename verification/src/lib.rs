//! AdES (Advanced Electronic Signatures) for the eIDAS 2.0 ecosystem.
//!
//! | Format | Level | Status |
//! |--------|-------|--------|
//! | CAdES  | B-B   | M1 — in development |
//! | PAdES  | B-B   | M2 — planned |
//!
//! The [`signer::Signer`] trait only ever hands the pre-computed digest to the
//! signing backend, so a private key never has to leave a hardware token.
//!
//! The [`dss`] module holds the logic of the client for the EU DSS validation
//! service: the request bodies it sends, how it reads the simple report it gets
//! back, and how its command line is understood.

/// X.509 certificate wrapper.
pub mod certificate;
/// Digest algorithm abstractions.
pub mod digest;
/// Error types.
pub mod error;

pub use certificate::Certificate;
pub use digest::DigestAlgorithm;
pub use error::AdesError;
/// Signer trait and software backend.
pub mod signer;

/// CAdES (CMS Advanced Electronic Signatures).
pub mod cades;

/// PAdES (PDF Advanced Electronic Signatures).
pub mod pades;

/// The logic of the DSS validation client.
pub mod dss;
