use vstd::prelude::*;

verus! {

/// Whether `der` is the DER encoding of an X.509 certificate, that is, whether
/// `x509_cert::Certificate::from_der` accepts it.
pub uninterp spec fn x509_certificate_decodes(der: Seq<u8>) -> bool;

/// Decodes `der` with `<x509_cert::Certificate as der::Decode>::from_der` and
/// keeps only whether that succeeded.
///
/// Claimed: the call succeeds exactly when the decoder accepts `der` (the
/// named predicate `x509_certificate_decodes`, a function of the bytes alone).
/// Which `der::Error` comes back on failure is not stated.
#[verifier::external_body]
fn check_x509_certificate(der: &[u8]) -> (res: Result<(), der::Error>)
    ensures
        res is Ok <==> x509_certificate_decodes(der@),
{
    match <x509_cert::Certificate as der::Decode>::from_der(der) {
        Ok(_) => Ok(()),
        Err(e) => Err(e),
    }
}

/// X.509 certificate wrapper: the DER encoding of a certificate that the
/// `x509-cert` decoder accepts.
pub struct Certificate {
    der: Vec<u8>,
}

impl View for Certificate {
    type V = Seq<u8>;

    /// A certificate is seen as its DER encoding.
    closed spec fn view(&self) -> Seq<u8> {
        self.der@
    }
}

impl Certificate {
    /// Every certificate holds bytes that decode as an X.509 certificate.
    #[verifier::type_invariant]
    spec fn well_formed(self) -> bool {
        x509_certificate_decodes(self.der@)
    }

    /// Decodes a DER-encoded X.509 certificate.
    ///
    /// Succeeds exactly when the decoder accepts `der`; the certificate then
    /// keeps `der` as its encoding.
    pub fn from_der(der: &[u8]) -> (res: Result<Certificate, der::Error>)
        ensures
            res is Ok <==> x509_certificate_decodes(der@),
            res matches Ok(cert) ==> cert@ == der@,
    {
        match check_x509_certificate(der) {
            Ok(()) => Ok(Certificate { der: vstd::slice::slice_to_vec(der) }),
            Err(e) => Err(e),
        }
    }

    /// The DER encoding of the certificate; it always decodes.
    pub fn to_der(&self) -> (res: Vec<u8>)
        ensures
            res@ == self@,
            x509_certificate_decodes(res@),
    {
        proof {
            use_type_invariant(self);
        }
        self.der.clone()
    }
}

} // verus!
