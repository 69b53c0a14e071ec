use vstd::prelude::*;

verus! {

/// The error that the `rsa` crate reports for key operations.
#[verifier::external_type_specification]
#[verifier::external_body]
pub struct ExRsaError(rsa::Error);

/// The error that the `signature` crate reports for signing operations.
#[verifier::external_type_specification]
#[verifier::external_body]
pub struct ExSignatureError(signature::Error);

/// The error that the `der` crate reports for DER encoding and decoding.
#[verifier::external_type_specification]
#[verifier::external_body]
pub struct ExDerError(der::Error);

/// Errors produced by the `ades` crate.
#[derive(Debug)]
#[non_exhaustive]
pub enum AdesError {
    /// RSA key operation failed (key generation, key import).
    Rsa(rsa::Error),
    /// Cryptographic signature operation failed.
    Signature(signature::Error),
    /// DER encoding or decoding failed (certificates, CMS structures).
    Der(der::Error),
    /// Operation not yet implemented.
    NotImplemented(&'static str),
}

impl From<rsa::Error> for AdesError {
    /// Wraps an error of the `rsa` crate.
    fn from(e: rsa::Error) -> (res: AdesError) {
        AdesError::Rsa(e)
    }
}

impl vstd::std_specs::convert::FromSpecImpl<rsa::Error> for AdesError {
    open spec fn obeys_from_spec() -> bool {
        true
    }

    open spec fn from_spec(e: rsa::Error) -> AdesError {
        AdesError::Rsa(e)
    }
}

impl From<signature::Error> for AdesError {
    /// Wraps an error of the `signature` crate.
    fn from(e: signature::Error) -> (res: AdesError) {
        AdesError::Signature(e)
    }
}

impl vstd::std_specs::convert::FromSpecImpl<signature::Error> for AdesError {
    open spec fn obeys_from_spec() -> bool {
        true
    }

    open spec fn from_spec(e: signature::Error) -> AdesError {
        AdesError::Signature(e)
    }
}

impl From<der::Error> for AdesError {
    /// Wraps an error of the `der` crate.
    fn from(e: der::Error) -> (res: AdesError) {
        AdesError::Der(e)
    }
}

impl vstd::std_specs::convert::FromSpecImpl<der::Error> for AdesError {
    open spec fn obeys_from_spec() -> bool {
        true
    }

    open spec fn from_spec(e: der::Error) -> AdesError {
        AdesError::Der(e)
    }
}

} // verus!
