use bulletproofs::ProofError;
use umbra::range_proof::{verification_verdict, RangeProofError};
use umbra::range_proof_verify::{proof_verdict, unpack_proof_bundle, verify_proof_bundle, verify_range_proof, VerifyError};

#[test]
fn short_bundle_is_refused() {
    assert_eq!(unpack_proof_bundle(&[0u8; 35]), Err(VerifyError::DeserializationFailed));
    assert_eq!(verify_proof_bundle(&[]), Err(VerifyError::DeserializationFailed));
}

#[test]
fn header_only_bundle_unpacks_to_empty_proof() {
    let mut bundle = vec![0x20, 0, 0, 0];
    bundle.extend_from_slice(&[0xab; 32]);
    let (proof, commitment, bits) = unpack_proof_bundle(&bundle).unwrap();
    assert!(proof.is_empty());
    assert_eq!(commitment, [0xab; 32]);
    assert_eq!(bits, 32);
    assert_eq!(verify_proof_bundle(&bundle), Err(VerifyError::DeserializationFailed));
}

#[test]
fn bits_are_read_little_endian() {
    let mut bundle = vec![0x01, 0x02, 0x03, 0x04];
    bundle.extend_from_slice(&[0u8; 33]);
    let (proof, _, bits) = unpack_proof_bundle(&bundle).unwrap();
    assert_eq!(bits, 0x0403_0201);
    assert_eq!(proof, vec![0u8]);
    assert_eq!(verify_proof_bundle(&bundle), Err(VerifyError::InvalidBits));
}

#[test]
fn verify_range_proof_checks_bits_first() {
    assert_eq!(verify_range_proof(&[], &[0u8; 32], 0), Err(VerifyError::InvalidBits));
    assert_eq!(verify_range_proof(&[], &[0u8; 32], 65), Err(VerifyError::InvalidBits));
    assert_eq!(verify_range_proof(&[1, 2, 3], &[0u8; 32], 32), Err(VerifyError::DeserializationFailed));
}

#[test]
fn verdict_follows_the_bulletproofs_check() {
    assert_eq!(proof_verdict(Ok(())), Ok(()));
    assert_eq!(proof_verdict(Err(ProofError::VerificationError)), Err(VerifyError::ProofInvalid));
    assert_eq!(proof_verdict(Err(ProofError::InvalidBitsize)), Err(VerifyError::ProofInvalid));
    assert_eq!(verification_verdict(Ok(())), Ok(()));
    assert_eq!(
        verification_verdict(Err(ProofError::FormatError)),
        Err(RangeProofError::ProofVerificationFailed)
    );
}
