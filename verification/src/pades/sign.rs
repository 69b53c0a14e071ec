use vstd::prelude::*;

use crate::error::AdesError;
use crate::signer::Signer;

verus! {

/// The message of the error that PAdES B-B signing returns while milestone M2
/// is planned.
pub open spec fn pades_bb_not_implemented() -> Seq<char> {
    "PAdES B-B signing (M2)"@
}

/// Produces a PAdES B-B signature over a PDF document.
///
/// Once milestone M2 lands this returns the signed PDF with an embedded CAdES
/// signature in a `/ByteRange` + `/Contents` signature field (ISO 32000-2,
/// ETSI EN 319 102-1). In this version the operation is not implemented yet:
/// for every input it returns `AdesError::NotImplemented` and never calls the
/// signer.
pub fn sign<S: Signer>(pdf: &[u8], signer: &S) -> (res: Result<Vec<u8>, AdesError>)
    ensures
        res matches Err(AdesError::NotImplemented(msg)) && msg@ == pades_bb_not_implemented(),
{
    let _ = (pdf, signer);
    Err(AdesError::NotImplemented("PAdES B-B signing (M2)"))
}

} // verus!
