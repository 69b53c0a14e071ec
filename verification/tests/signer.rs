use ades::cades;
use ades::pades;
use ades::signer::{signing_outcome, Signer, SoftSigner};
use ades::{AdesError, Certificate, DigestAlgorithm};
use rsa::BigUint;

const KEY_N: [u8; 64] = [
    0xe7, 0x4a, 0x5f, 0xbf, 0x71, 0x04, 0xa7, 0x06, 0x8a, 0xa7, 0x59, 0xfb, 0x2f, 0xd2, 0x1e, 0x3f,
    0x1a, 0xc7, 0x3b, 0x8c, 0xa2, 0x0c, 0xf2, 0xda, 0xfe, 0x65, 0xc1, 0x93, 0x70, 0x51, 0x8b, 0x29,
    0xc6, 0xc2, 0x22, 0x79, 0x26, 0x0f, 0xd7, 0x6e, 0x80, 0xe4, 0xe3, 0x25, 0xe3, 0x55, 0x29, 0x8e,
    0x1a, 0x3f, 0x5f, 0xc2, 0x84, 0x7e, 0x58, 0xa7, 0x87, 0xc7, 0x5b, 0x4a, 0x08, 0x45, 0x7d, 0x3f,
];

const KEY_E: u64 = 65537;

const KEY_D: [u8; 64] = [
    0xd4, 0x38, 0x0c, 0xd4, 0x96, 0xb9, 0xc3, 0x1b, 0xa0, 0x7b, 0x5f, 0x77, 0xb7, 0xf0, 0x1e, 0xaa,
    0x9e, 0x42, 0x72, 0x64, 0x5e, 0x88, 0x6d, 0x08, 0xfd, 0x65, 0x96, 0x91, 0x56, 0xfc, 0xab, 0x27,
    0x42, 0x52, 0x8e, 0xab, 0xfe, 0xb3, 0x07, 0xe7, 0x47, 0x38, 0xdd, 0x22, 0x4b, 0xc3, 0xe3, 0x88,
    0x90, 0x3c, 0xb6, 0xc4, 0x8d, 0xbd, 0x70, 0xb7, 0x4d, 0x02, 0x92, 0x97, 0xfa, 0xf3, 0xd8, 0xc1,
];

const KEY_P: [u8; 32] = [
    0xf6, 0x31, 0x10, 0x59, 0x60, 0xf8, 0xc0, 0xd3, 0x6d, 0x21, 0xde, 0xd5, 0xf3, 0x13, 0xee, 0x2b,
    0x3c, 0x3a, 0xc0, 0xb2, 0xd9, 0x35, 0x02, 0x01, 0x03, 0x6c, 0x4c, 0x1a, 0x15, 0xe8, 0x12, 0x5f,
];

const KEY_Q: [u8; 32] = [
    0xf0, 0x81, 0x54, 0xf3, 0xa5, 0x78, 0xbc, 0xf2, 0x7b, 0x5a, 0x33, 0xcb, 0xf5, 0xe6, 0x2c, 0x3d,
    0xc6, 0x65, 0xd3, 0x9e, 0xad, 0x00, 0x8e, 0x10, 0x4c, 0x2d, 0x86, 0x93, 0x1e, 0xef, 0x41, 0x21,
];

const CERT_DER: [u8; 584] = [
    0x30, 0x82, 0x02, 0x44, 0x30, 0x82, 0x01, 0xad, 0xa0, 0x03, 0x02, 0x01, 0x02, 0x02, 0x14, 0x16,
    0xe0, 0x06, 0xbe, 0x13, 0x75, 0xb0, 0x1a, 0x5e, 0xa2, 0x1c, 0x59, 0x3c, 0x50, 0x4d, 0x97, 0x5a,
    0xc6, 0xc9, 0xa0, 0x30, 0x0d, 0x06, 0x09, 0x2a, 0x86, 0x48, 0x86, 0xf7, 0x0d, 0x01, 0x01, 0x0b,
    0x05, 0x00, 0x30, 0x34, 0x31, 0x12, 0x30, 0x10, 0x06, 0x03, 0x55, 0x04, 0x03, 0x0c, 0x09, 0x61,
    0x64, 0x65, 0x73, 0x2d, 0x74, 0x65, 0x73, 0x74, 0x31, 0x11, 0x30, 0x0f, 0x06, 0x03, 0x55, 0x04,
    0x0a, 0x0c, 0x08, 0x65, 0x69, 0x64, 0x61, 0x73, 0x2d, 0x72, 0x73, 0x31, 0x0b, 0x30, 0x09, 0x06,
    0x03, 0x55, 0x04, 0x06, 0x13, 0x02, 0x45, 0x53, 0x30, 0x1e, 0x17, 0x0d, 0x32, 0x36, 0x31, 0x31,
    0x31, 0x38, 0x31, 0x31, 0x30, 0x39, 0x33, 0x37, 0x5a, 0x17, 0x0d, 0x33, 0x36, 0x31, 0x31, 0x31,
    0x35, 0x31, 0x31, 0x30, 0x39, 0x33, 0x37, 0x5a, 0x30, 0x34, 0x31, 0x12, 0x30, 0x10, 0x06, 0x03,
    0x55, 0x04, 0x03, 0x0c, 0x09, 0x61, 0x64, 0x65, 0x73, 0x2d, 0x74, 0x65, 0x73, 0x74, 0x31, 0x11,
    0x30, 0x0f, 0x06, 0x03, 0x55, 0x04, 0x0a, 0x0c, 0x08, 0x65, 0x69, 0x64, 0x61, 0x73, 0x2d, 0x72,
    0x73, 0x31, 0x0b, 0x30, 0x09, 0x06, 0x03, 0x55, 0x04, 0x06, 0x13, 0x02, 0x45, 0x53, 0x30, 0x81,
    0x9f, 0x30, 0x0d, 0x06, 0x09, 0x2a, 0x86, 0x48, 0x86, 0xf7, 0x0d, 0x01, 0x01, 0x01, 0x05, 0x00,
    0x03, 0x81, 0x8d, 0x00, 0x30, 0x81, 0x89, 0x02, 0x81, 0x81, 0x00, 0xac, 0xe2, 0x01, 0xa0, 0xaa,
    0x6f, 0xd2, 0xcf, 0x8f, 0x18, 0x03, 0x85, 0xe9, 0x72, 0x91, 0x0a, 0xb8, 0x8d, 0x13, 0x55, 0xdc,
    0x03, 0x0f, 0x84, 0x88, 0x0d, 0x1f, 0x42, 0x16, 0xdb, 0xaa, 0x50, 0x17, 0x9b, 0x34, 0x2c, 0x68,
    0xb6, 0xac, 0x5d, 0x0b, 0xa4, 0x67, 0x17, 0xb1, 0xe2, 0xc7, 0x20, 0x33, 0xce, 0x1d, 0x92, 0x91,
    0x51, 0x09, 0xb0, 0x0d, 0xd7, 0x17, 0xf4, 0x22, 0x61, 0x95, 0xa1, 0x5e, 0x2b, 0xf2, 0x77, 0xae,
    0x5d, 0xe6, 0xf3, 0x3d, 0x32, 0xc4, 0x24, 0x61, 0x6d, 0x81, 0xe9, 0xc5, 0xec, 0xe6, 0x9c, 0x97,
    0x98, 0x7f, 0x5c, 0x31, 0x94, 0x3d, 0xd3, 0x7f, 0x59, 0x1c, 0xfa, 0xe4, 0x79, 0xf9, 0xe1, 0xf5,
    0x1a, 0xcf, 0x37, 0x3a, 0x0d, 0x4c, 0xd6, 0x31, 0x45, 0x43, 0xb5, 0x8e, 0xe1, 0x63, 0x77, 0x60,
    0x7c, 0x5c, 0xff, 0xaf, 0xa6, 0x39, 0x73, 0xc7, 0x70, 0x6b, 0x49, 0x02, 0x03, 0x01, 0x00, 0x01,
    0xa3, 0x53, 0x30, 0x51, 0x30, 0x1d, 0x06, 0x03, 0x55, 0x1d, 0x0e, 0x04, 0x16, 0x04, 0x14, 0x79,
    0xf7, 0xa4, 0xda, 0x07, 0x75, 0xef, 0xf0, 0xfa, 0xd9, 0x9f, 0x1e, 0x28, 0x26, 0x28, 0x3f, 0xaa,
    0x62, 0x2e, 0xcd, 0x30, 0x1f, 0x06, 0x03, 0x55, 0x1d, 0x23, 0x04, 0x18, 0x30, 0x16, 0x80, 0x14,
    0x79, 0xf7, 0xa4, 0xda, 0x07, 0x75, 0xef, 0xf0, 0xfa, 0xd9, 0x9f, 0x1e, 0x28, 0x26, 0x28, 0x3f,
    0xaa, 0x62, 0x2e, 0xcd, 0x30, 0x0f, 0x06, 0x03, 0x55, 0x1d, 0x13, 0x01, 0x01, 0xff, 0x04, 0x05,
    0x30, 0x03, 0x01, 0x01, 0xff, 0x30, 0x0d, 0x06, 0x09, 0x2a, 0x86, 0x48, 0x86, 0xf7, 0x0d, 0x01,
    0x01, 0x0b, 0x05, 0x00, 0x03, 0x81, 0x81, 0x00, 0x2f, 0x45, 0x68, 0xcc, 0x88, 0xfc, 0x9f, 0x5c,
    0x67, 0xd3, 0x7c, 0x26, 0x1f, 0xa0, 0x1a, 0x15, 0xe5, 0xcd, 0xe6, 0xda, 0xbd, 0xd3, 0x2c, 0xef,
    0x5a, 0x86, 0x10, 0x80, 0x1a, 0x38, 0x3e, 0x7e, 0x95, 0xaa, 0x9c, 0xc4, 0x89, 0xc2, 0x10, 0xe6,
    0xcd, 0xaa, 0x4a, 0xbf, 0xcb, 0xb9, 0xd9, 0x35, 0xc4, 0x7e, 0xf8, 0xd9, 0xec, 0xb0, 0x67, 0x10,
    0xc0, 0x58, 0xf6, 0xca, 0x22, 0x0a, 0xe7, 0x7e, 0xb1, 0x83, 0x58, 0x4f, 0x4b, 0xb4, 0x6a, 0xf1,
    0xc9, 0x90, 0xe8, 0x03, 0xb6, 0x6a, 0x41, 0xb3, 0x41, 0xe1, 0xbe, 0x1a, 0x73, 0xe3, 0x4e, 0x33,
    0xcc, 0xe0, 0x46, 0x3d, 0x73, 0xdf, 0x9f, 0x6c, 0x45, 0x70, 0x41, 0x56, 0x2b, 0xa8, 0x5e, 0x88,
    0x8f, 0x56, 0x0d, 0x60, 0x59, 0x38, 0x13, 0x59, 0x5e, 0x81, 0xb3, 0xfe, 0x93, 0x40, 0x59, 0x6a,
    0xac, 0x68, 0x24, 0xc1, 0xd2, 0xff, 0x92, 0x7e,
];

const SIGNATURE: [u8; 64] = [
    0x6c, 0x3b, 0x98, 0xe7, 0x76, 0xac, 0xf5, 0x36, 0x4b, 0x3f, 0x5b, 0x30, 0xa3, 0xd9, 0xf1, 0xd9,
    0xf4, 0x6a, 0x00, 0x4b, 0x23, 0xc9, 0xd8, 0xcc, 0xdb, 0x0b, 0x4a, 0x06, 0x80, 0x96, 0x57, 0xa4,
    0x5b, 0xbd, 0x08, 0xac, 0xf5, 0x05, 0xe4, 0xcb, 0x6d, 0xfb, 0x10, 0x40, 0x0e, 0xb8, 0x73, 0xd9,
    0x22, 0xb5, 0xd2, 0xda, 0x0e, 0xd4, 0xb7, 0x63, 0x13, 0x17, 0x67, 0xf2, 0x75, 0x45, 0x8d, 0x6e,
];

const DIGEST: [u8; 32] = [
    0xba, 0x78, 0x16, 0xbf, 0x8f, 0x01, 0xcf, 0xea, 0x41, 0x41, 0x40, 0xde, 0x5d, 0xae, 0x22, 0x23,
    0xb0, 0x03, 0x61, 0xa3, 0x96, 0x17, 0x7a, 0x9c, 0xb4, 0x10, 0xff, 0x61, 0xf2, 0x00, 0x15, 0xad,
];

fn test_key() -> rsa::RsaPrivateKey {
    rsa::RsaPrivateKey::from_components(
        BigUint::from_bytes_be(&KEY_N),
        BigUint::from(KEY_E),
        BigUint::from_bytes_be(&KEY_D),
        vec![BigUint::from_bytes_be(&KEY_P), BigUint::from_bytes_be(&KEY_Q)],
    )
    .expect("test key components must form a key")
}

fn test_signer() -> SoftSigner {
    SoftSigner::from_parts(test_key(), &CERT_DER, DigestAlgorithm::Sha256).expect("test certificate must decode")
}

/// A signer without key material, for operations that never reach the key.
struct CertOnlySigner {
    certificate: Certificate,
}

impl Signer for CertOnlySigner {
    type Error = AdesError;

    fn sign_digest(&self, digest: &[u8]) -> Result<Vec<u8>, AdesError> {
        Ok(digest.to_vec())
    }

    fn certificate(&self) -> &Certificate {
        &self.certificate
    }

    fn digest_algorithm(&self) -> DigestAlgorithm {
        DigestAlgorithm::Sha256
    }
}

fn cert_only_signer() -> CertOnlySigner {
    CertOnlySigner { certificate: Certificate::from_der(&CERT_DER).expect("test certificate must decode") }
}

#[test]
fn cades_sign_is_not_implemented_yet() {
    let signer = cert_only_signer();
    match cades::sign(b"hello world", &signer) {
        Err(AdesError::NotImplemented(msg)) => assert_eq!(msg, "CAdES B-B signing (M1)"),
        other => panic!("unexpected result: {:?}", other),
    }
}

#[test]
fn cades_sign_empty_data_is_not_implemented_yet() {
    let signer = test_signer();
    assert!(matches!(cades::sign(b"", &signer), Err(AdesError::NotImplemented("CAdES B-B signing (M1)"))));
}

#[test]
fn pades_sign_is_not_implemented_yet() {
    let signer = cert_only_signer();
    match pades::sign(b"%PDF-1.7\n", &signer) {
        Err(AdesError::NotImplemented(msg)) => assert_eq!(msg, "PAdES B-B signing (M2)"),
        other => panic!("unexpected result: {:?}", other),
    }
}

#[test]
fn soft_signer_generate_is_not_implemented_yet() {
    match SoftSigner::generate(2048) {
        Err(AdesError::NotImplemented(msg)) => assert_eq!(msg, "SoftSigner::generate (M1)"),
        Err(e) => panic!("unexpected error: {:?}", e),
        Ok(_) => panic!("generate must not succeed yet"),
    }
}

#[test]
fn from_parts_keeps_certificate_and_digest() {
    let signer = SoftSigner::from_parts(test_key(), &CERT_DER, DigestAlgorithm::Sha384).unwrap();
    assert_eq!(signer.certificate().to_der(), CERT_DER.to_vec());
    assert_eq!(signer.digest_algorithm(), DigestAlgorithm::Sha384);
}

#[test]
fn from_parts_rejects_invalid_certificate() {
    let key = test_key();
    let truncated = &CERT_DER[..CERT_DER.len() - 1];
    assert!(matches!(
        SoftSigner::from_parts(key.clone(), truncated, DigestAlgorithm::Sha256),
        Err(AdesError::Der(_))
    ));
    assert!(matches!(
        SoftSigner::from_parts(key, &[], DigestAlgorithm::Sha256),
        Err(AdesError::Der(_))
    ));
}

#[test]
fn certificate_from_der_round_trips() {
    let cert = Certificate::from_der(&CERT_DER).unwrap();
    assert_eq!(cert.to_der(), CERT_DER.to_vec());
    assert_eq!(cert.to_der()[0], 0x30);
}

#[test]
fn certificate_from_der_rejects_garbage() {
    assert!(Certificate::from_der(&[0x30, 0x03, 0x02, 0x01, 0x01]).is_err());
    assert!(Certificate::from_der(b"not a certificate").is_err());
}

#[test]
fn sign_digest_is_pkcs1v15_sha256() {
    let signer = test_signer();
    let sig = signer.sign_digest(&DIGEST).unwrap();
    assert_eq!(sig, SIGNATURE.to_vec());
    assert_ne!(sig, DIGEST.to_vec());
}

#[test]
fn sign_digest_rejects_oversized_digest() {
    let signer = test_signer();
    let too_long = [0xabu8; 200];
    assert!(matches!(signer.sign_digest(&too_long), Err(AdesError::Signature(_))));
}

#[test]
fn errors_convert_from_outside_errors() {
    let der_err: der::Error = der::ErrorKind::Failed.into();
    assert!(matches!(AdesError::from(der_err), AdesError::Der(_)));
    assert!(matches!(AdesError::from(signature::Error::new()), AdesError::Signature(_)));
    assert!(matches!(AdesError::from(rsa::Error::Verification), AdesError::Rsa(_)));
}

#[test]
fn signing_outcome_keeps_bytes_and_wraps_failures() {
    assert_eq!(signing_outcome(Ok(vec![1, 2, 3])).unwrap(), vec![1, 2, 3]);
    assert_eq!(signing_outcome(Ok(vec![])).unwrap(), Vec::<u8>::new());
    assert!(matches!(signing_outcome(Err(signature::Error::new())), Err(AdesError::Signature(_))));
}
