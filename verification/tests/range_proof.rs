use bulletproofs::PedersenGens;
use curve25519_dalek_ng::scalar::Scalar;
use rand_core::OsRng;
use umbra::commitment::Commitment;
use umbra::range_proof::{BulletproofRangeProof, RangeProofError};
use umbra::range_proof_verify::{unpack_proof_bundle, verify_proof_bundle, verify_range_proof, VerifyError};

fn blinding(v: u64) -> [u8; 32] {
    Scalar::from(v).to_bytes()
}

#[test]
fn test_valid_range_proof() {
    let value = 100_000u64;
    let bits = 32;

    let proof = BulletproofRangeProof::prove(value, blinding(12345), bits, &mut OsRng)
        .expect("proof generation");

    assert_eq!(proof.bits(), 32);
    assert!(proof.verify(&mut OsRng).is_ok());
}

#[test]
fn test_boundary_zero() {
    let bits = 32;

    let proof = BulletproofRangeProof::prove(0, blinding(999), bits, &mut OsRng)
        .expect("proof generation for zero");

    assert!(proof.verify(&mut OsRng).is_ok());
}

#[test]
fn test_boundary_max() {
    let bits = 32;
    let value = (1u64 << 32) - 1;

    let proof = BulletproofRangeProof::prove(value, blinding(777), bits, &mut OsRng)
        .expect("proof generation at upper boundary");

    assert!(proof.verify(&mut OsRng).is_ok());
}

#[test]
fn test_invalid_bits_zero() {
    let result = BulletproofRangeProof::prove(0, blinding(1), 0, &mut OsRng);
    assert!(result.is_err());
}

#[test]
fn test_invalid_bits_overflow() {
    let result = BulletproofRangeProof::prove(0, blinding(1), 65, &mut OsRng);
    assert!(result.is_err());
}

#[test]
fn test_proof_with_different_blinding_verifies() {
    let value = 42u64;
    let bits = 16;

    let proof = BulletproofRangeProof::prove(value, blinding(888_888), bits, &mut OsRng)
        .expect("proof generation");

    assert!(proof.verify(&mut OsRng).is_ok());
}

#[test]
fn test_serialization_roundtrip() {
    let value = 7_000u64;
    let bits = 32;

    let proof = BulletproofRangeProof::prove(value, blinding(555_555), bits, &mut OsRng)
        .expect("proof generation");

    assert!(proof.verify(&mut OsRng).is_ok());

    let bytes = proof.to_bytes();
    assert!(bytes.len() > 36);
}

#[test]
fn invalid_bits_errors_name_the_cause() {
    assert_eq!(
        BulletproofRangeProof::prove(0, blinding(1), 0, &mut OsRng).err(),
        Some(RangeProofError::InvalidBits)
    );
    assert_eq!(
        BulletproofRangeProof::prove(0, blinding(1), 65, &mut OsRng).err(),
        Some(RangeProofError::InvalidBits)
    );
    assert_eq!(
        BulletproofRangeProof::prove(0, blinding(1), 12, &mut OsRng).err(),
        Some(RangeProofError::ProofGenerationFailed)
    );
}

#[test]
fn out_of_range_value_does_not_verify() {
    let proof = BulletproofRangeProof::prove(1u64 << 8, blinding(3), 8, &mut OsRng)
        .expect("the prover does not check the range");
    assert_eq!(proof.verify(&mut OsRng), Err(RangeProofError::ProofVerificationFailed));
}

#[test]
fn proof_commitment_is_the_pedersen_commitment_of_the_value() {
    let proof = BulletproofRangeProof::prove(1234, blinding(77), 16, &mut OsRng).unwrap();
    assert_eq!(proof.commitment(), Commitment::new(1234, blinding(77)).as_bytes());
    // Not the commitment under bulletproofs' default generators.
    let default_gens = PedersenGens::default()
        .commit(Scalar::from(1234u64), Scalar::from(77u64))
        .compress()
        .to_bytes();
    assert_ne!(*proof.commitment(), default_gens);
    assert!(proof.to_bytes().len() >= 36 + 288);
}

#[test]
fn bundle_layout_and_unpacking() {
    let proof = BulletproofRangeProof::prove(7_000, blinding(5), 32, &mut OsRng).unwrap();
    let bytes = proof.to_bytes();
    assert_eq!(&bytes[..4], &32u32.to_le_bytes());
    assert_eq!(&bytes[4..36], proof.commitment());
    let (proof_bytes, commitment, bits) = unpack_proof_bundle(&bytes).unwrap();
    assert_eq!(bits, 32);
    assert_eq!(&commitment, proof.commitment());
    assert_eq!(proof_bytes.as_slice(), &bytes[36..]);
    assert!(verify_proof_bundle(&bytes).is_ok());
    assert!(verify_range_proof(&proof_bytes, &commitment, 32).is_ok());
}

#[test]
fn proof_verifies_only_against_its_own_commitment_and_width() {
    let proof = BulletproofRangeProof::prove(500, blinding(9), 16, &mut OsRng).unwrap();
    let bytes = proof.to_bytes();
    let (proof_bytes, commitment, _) = unpack_proof_bundle(&bytes).unwrap();
    assert!(verify_range_proof(&proof_bytes, &commitment, 16).is_ok());

    let other = *BulletproofRangeProof::prove(501, blinding(9), 16, &mut OsRng).unwrap().commitment();
    assert_eq!(verify_range_proof(&proof_bytes, &other, 16), Err(VerifyError::ProofInvalid));
    assert_eq!(verify_range_proof(&proof_bytes, &commitment, 32), Err(VerifyError::ProofInvalid));
    assert_eq!(verify_range_proof(&proof_bytes, &commitment, 12), Err(VerifyError::ProofInvalid));
}

#[test]
fn identity_point_or_wrong_rounds_are_refused() {
    let proof = BulletproofRangeProof::prove(500, blinding(9), 16, &mut OsRng).unwrap();
    let (mut proof_bytes, commitment, _) = unpack_proof_bundle(&proof.to_bytes()).unwrap();
    // The 16-bit proof has log2(16) = 4 inner-product rounds: 9 + 2 * 4 words.
    assert_eq!(proof_bytes.len(), 32 * (9 + 2 * 4));
    assert_eq!(verify_range_proof(&proof_bytes, &commitment, 8), Err(VerifyError::ProofInvalid));
    for b in &mut proof_bytes[0..32] {
        *b = 0;
    }
    assert_eq!(verify_range_proof(&proof_bytes, &commitment, 16), Err(VerifyError::ProofInvalid));
}
