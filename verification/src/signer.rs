use vstd::prelude::*;

use crate::certificate::{x509_certificate_decodes, Certificate};
use crate::digest::DigestAlgorithm;
use crate::error::AdesError;

verus! {

/// Abstraction over a signing key, compatible with software keys, DNIe, HSM, and WebCrypto.
///
/// The private key never leaves the device: only the digest is passed to `sign_digest`.
/// This design ensures hardware tokens (PKCS#11, WebCrypto) can implement this trait
/// without ever exposing the raw key material.
pub trait Signer {
    /// The error type returned by signing operations.
    type Error;

    /// Signs `digest` (the pre-computed hash of the data) and returns the raw signature bytes.
    ///
    /// The digest length must match the algorithm returned by [`Self::digest_algorithm`].
    fn sign_digest(&self, digest: &[u8]) -> Result<Vec<u8>, Self::Error>;

    /// Returns the signer's certificate. Used to embed the signing certificate in the signature.
    fn certificate(&self) -> &Certificate;

    /// Returns the digest algorithm used by this signer.
    fn digest_algorithm(&self) -> DigestAlgorithm;
}

/// An RSA private key of the `rsa` crate.
#[verifier::external_type_specification]
#[verifier::external_body]
pub struct ExRsaPrivateKey(rsa::RsaPrivateKey);

/// Signs a pre-computed digest with RSASSA-PKCS1-v1_5 under the SHA-256
/// DigestInfo prefix: `rsa::pkcs1v15::SigningKey::<sha2::Sha256>::new` on a copy
/// of the key, then `PrehashSigner::sign_prehash`, then the signature's bytes.
///
/// Nothing is claimed of the result: it depends on the private key, which
/// Verus only sees as an opaque value, and `sign_prehash` fails when the
/// padded digest does not fit the key's modulus.
#[verifier::external_body]
fn pkcs1v15_sha256_sign_prehash(key: &rsa::RsaPrivateKey, digest: &[u8]) -> (res: Result<Vec<u8>, signature::Error>)
{
    let signing_key = rsa::pkcs1v15::SigningKey::<sha2::Sha256>::new(key.clone());
    match signature::hazmat::PrehashSigner::<rsa::pkcs1v15::Signature>::sign_prehash(&signing_key, digest) {
        Ok(sig) => Ok(signature::SignatureEncoding::to_vec(&sig)),
        Err(e) => Err(e),
    }
}

/// Software signing backend — holds the private key in memory.
///
/// Intended for testing and development. Do not use in production with real keys.
pub struct SoftSigner {
    private_key: rsa::RsaPrivateKey,
    certificate: Certificate,
    digest: DigestAlgorithm,
}

/// The message of the error that `SoftSigner::generate` returns.
pub open spec fn generate_not_implemented() -> Seq<char> {
    "SoftSigner::generate (M1)"@
}

impl SoftSigner {
    /// The private key held by the signer.
    pub closed spec fn key(&self) -> rsa::RsaPrivateKey {
        self.private_key
    }

    /// The DER encoding of the signer's certificate.
    pub closed spec fn certificate_der(&self) -> Seq<u8> {
        self.certificate@
    }

    /// The digest algorithm the signer announces.
    pub closed spec fn digest(&self) -> DigestAlgorithm {
        self.digest
    }

    /// Generates a fresh RSA key pair of `bits` size and a self-signed certificate.
    ///
    /// Not implemented yet (milestone M1): always the `NotImplemented` error.
    pub fn generate(bits: usize) -> (res: Result<SoftSigner, AdesError>)
        ensures
            res matches Err(AdesError::NotImplemented(msg)) && msg@ == generate_not_implemented(),
    {
        let _ = bits;
        Err(AdesError::NotImplemented("SoftSigner::generate (M1)"))
    }

    /// Creates a `SoftSigner` from an existing RSA private key and DER-encoded certificate.
    ///
    /// Succeeds exactly when `cert_der` decodes as an X.509 certificate, and
    /// then holds the key, that certificate and the digest algorithm as given;
    /// otherwise the error is the decoder's, as `AdesError::Der`.
    pub fn from_parts(
        private_key: rsa::RsaPrivateKey,
        cert_der: &[u8],
        digest: DigestAlgorithm,
    ) -> (res: Result<SoftSigner, AdesError>)
        ensures
            res is Ok <==> x509_certificate_decodes(cert_der@),
            res matches Ok(s) ==> {
                &&& s.key() == private_key
                &&& s.certificate_der() == cert_der@
                &&& s.digest() == digest
            },
            res matches Err(e) ==> e is Der,
    {
        match Certificate::from_der(cert_der) {
            Ok(certificate) => Ok(SoftSigner { private_key, certificate, digest }),
            Err(e) => Err(AdesError::Der(e)),
        }
    }
}

/// How `SoftSigner` reports the outcome of its signing call: the signature
/// bytes exactly as they came back, or the failure as `AdesError::Signature`.
pub fn signing_outcome(outcome: Result<Vec<u8>, signature::Error>) -> (res: Result<Vec<u8>, AdesError>)
    ensures
        match outcome {
            Ok(sig) => res matches Ok(out) && out@ == sig@,
            Err(e) => res matches Err(AdesError::Signature(f)) && f == e,
        },
{
    match outcome {
        Ok(sig) => Ok(sig),
        Err(e) => Err(AdesError::Signature(e)),
    }
}

impl Signer for SoftSigner {
    type Error = AdesError;

    /// Signs the digest with the held key (RSASSA-PKCS1-v1_5, SHA-256 prefix)
    /// and reports the outcome through `signing_outcome`: whether it succeeds
    /// and which bytes come back is decided by the `rsa` crate on a key that
    /// Verus sees only as an opaque value; a failure comes back as
    /// `AdesError::Signature`.
    fn sign_digest(&self, digest: &[u8]) -> (res: Result<Vec<u8>, AdesError>)
        ensures
            res matches Err(e) ==> e is Signature,
    {
        signing_outcome(pkcs1v15_sha256_sign_prehash(&self.private_key, digest))
    }

    /// The certificate given to `from_parts`.
    fn certificate(&self) -> (res: &Certificate)
        ensures
            res@ == self.certificate_der(),
    {
        &self.certificate
    }

    /// The digest algorithm given to `from_parts`.
    fn digest_algorithm(&self) -> (res: DigestAlgorithm)
        ensures
            res == self.digest(),
    {
        self.digest
    }
}

} // verus!
