use vstd::prelude::*;

use crate::error::AdesError;
use crate::signer::Signer;

verus! {

/// The message of the error that CAdES B-B signing returns while milestone M1
/// is in development.
pub open spec fn cades_bb_not_implemented() -> Seq<char> {
    "CAdES B-B signing (M1)"@
}

/// Produces a CAdES B-B signature over `data`.
///
/// Once milestone M1 lands this returns the DER-encoded CMS `SignedData`
/// carrying the signed attributes `id-contentType`, `id-signingTime` and
/// `id-messageDigest`. In this version the operation is not implemented yet:
/// for every input it returns `AdesError::NotImplemented` and never calls the
/// signer.
pub fn sign<S: Signer>(data: &[u8], signer: &S) -> (res: Result<Vec<u8>, AdesError>)
    ensures
        res matches Err(AdesError::NotImplemented(msg)) && msg@ == cades_bb_not_implemented(),
{
    let _ = (data, signer);
    Err(AdesError::NotImplemented("CAdES B-B signing (M1)"))
}

} // verus!
