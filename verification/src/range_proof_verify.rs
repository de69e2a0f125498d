//! Verify-only interface for serialized range proofs: needs no random
//! number generator from the caller and never sees the committed value.
use bulletproofs::ProofError;
use vstd::prelude::*;

use crate::backend::{is_supported_bitsize, range_proof_from_bytes, range_proof_well_formed, verify_single};
use crate::encoding::{le_u32, lemma_le_u32_of_u32_le, read_array, read_tail, read_u32_le, u32_le};
use crate::commitment::GENERATOR_H_LABEL;
use crate::range_proof::{bits_out_of_range, certifies, passed_verification, proof_bundle, RANGE_PROOF_LABEL};

verus! {

/// Error variants for proof verification.
#[derive(Debug, PartialEq, Eq, Structural)]
pub enum VerifyError {
    /// The serialized proof bytes could not be deserialized.
    DeserializationFailed,
    /// The commitment bytes could not be deserialized.
    InvalidCommitment,
    /// The bit-width is outside the allowed range `[1, 64]`.
    InvalidBits,
    /// The proof did not verify against the commitment.
    ProofInvalid,
}

/// What a verification of `proof` for `commitment` at width `bits` may
/// answer: a width outside `[1, 64]` is refused, then bytes that do not
/// parse, then every width `bulletproofs` does not support is an invalid
/// proof; otherwise a proof that [`certifies`] the commitment is accepted,
/// any other is accepted or found invalid, and an accepted one has
/// [`passed_verification`].
pub open spec fn range_check_outcome(
    proof: Seq<u8>,
    commitment: Seq<u8>,
    bits: usize,
    res: Result<(), VerifyError>,
) -> bool {
    if bits_out_of_range(bits) {
        res == Err::<(), VerifyError>(VerifyError::InvalidBits)
    } else if !range_proof_well_formed(proof) {
        res == Err::<(), VerifyError>(VerifyError::DeserializationFailed)
    } else if !is_supported_bitsize(bits) {
        res == Err::<(), VerifyError>(VerifyError::ProofInvalid)
    } else {
        &&& certifies(proof, commitment, bits) ==> res is Ok
        &&& res is Ok || res == Err::<(), VerifyError>(VerifyError::ProofInvalid)
        &&& res is Ok ==> passed_verification(proof, commitment, bits)
    }
}

/// What verifying the bundle `bundle` answers.
pub open spec fn bundle_check_outcome(bundle: Seq<u8>, res: Result<(), VerifyError>) -> bool {
    match unpacked_bundle(bundle) {
        None => res == Err::<(), VerifyError>(VerifyError::DeserializationFailed),
        Some((p, c, b)) => range_check_outcome(p, c, b as usize, res),
    }
}

/// The parts `(proof, commitment, bits)` of a bundle, or `None` when it is
/// shorter than its 36-byte header.
pub open spec fn unpacked_bundle(bundle: Seq<u8>) -> Option<(Seq<u8>, Seq<u8>, u32)> {
    if bundle.len() < 36 {
        None
    } else {
        Some((bundle.subrange(36, bundle.len() as int), bundle.subrange(4, 36), le_u32(bundle)))
    }
}

/// Verifies a serialized Bulletproof range proof for the 32-byte compressed
/// `commitment_bytes` over the range `[0, 2^bits)`.
pub fn verify_range_proof(proof_bytes: &[u8], commitment_bytes: &[u8; 32], bits: usize) -> (res:
    Result<(), VerifyError>)
    ensures
        range_check_outcome(proof_bytes@, commitment_bytes@, bits, res),
{
    if bits == 0 || bits > 64 {
        return Err(VerifyError::InvalidBits);
    }
    let proof = match range_proof_from_bytes(proof_bytes) {
        Ok(p) => p,
        Err(_) => return Err(VerifyError::DeserializationFailed),
    };
    proof_verdict(verify_single(&proof, &RANGE_PROOF_LABEL, &GENERATOR_H_LABEL, commitment_bytes, bits))
}

/// The answer to a proof once `bulletproofs` has checked it: accepted, or
/// invalid whatever the error.
pub fn proof_verdict(checked: Result<(), ProofError>) -> (res: Result<(), VerifyError>)
    ensures
        checked is Ok <==> res is Ok,
        checked is Err ==> res == Err::<(), VerifyError>(VerifyError::ProofInvalid),
{
    match checked {
        Ok(()) => Ok(()),
        Err(_) => Err(VerifyError::ProofInvalid),
    }
}

/// Splits a bundle `[ bits: u32 LE (4 bytes) | commitment (32 bytes) | proof ]`
/// into `(proof_bytes, commitment_bytes, bits)`.
pub fn unpack_proof_bundle(bundle: &[u8]) -> (res: Result<(Vec<u8>, [u8; 32], usize), VerifyError>)
    ensures
        match unpacked_bundle(bundle@) {
            None => res == Err::<(Vec<u8>, [u8; 32], usize), VerifyError>(
                VerifyError::DeserializationFailed,
            ),
            Some((p, c, b)) => res matches Ok((proof, commitment, bits)) && proof@ == p
                && commitment@ == c && bits == b,
        },
{
    if bundle.len() < 36 {
        return Err(VerifyError::DeserializationFailed);
    }
    let bits = read_u32_le(bundle, 0);
    let commitment: [u8; 32] = read_array(bundle, 4);
    let proof_bytes = read_tail(bundle, 36);
    assert(bundle@.subrange(0, 4)[0] == bundle@[0] && bundle@.subrange(0, 4)[1] == bundle@[1]
        && bundle@.subrange(0, 4)[2] == bundle@[2] && bundle@.subrange(0, 4)[3] == bundle@[3]);
    Ok((proof_bytes, commitment, bits as usize))
}

/// Unpacks a bundle and verifies the proof it holds.
pub fn verify_proof_bundle(bundle: &[u8]) -> (res: Result<(), VerifyError>)
    ensures
        bundle_check_outcome(bundle@, res),
{
    let (proof_bytes, commitment_bytes, bits) = unpack_proof_bundle(bundle)?;
    verify_range_proof(proof_bytes.as_slice(), &commitment_bytes, bits)
}

/// Law: unpacking the bundle that `BulletproofRangeProof::to_bytes` writes
/// gives back its proof bytes, its commitment and its bit-width.
pub proof fn lemma_unpack_inverts_bundle(proof: Seq<u8>, commitment: Seq<u8>, bits: u32)
    requires
        commitment.len() == 32,
    ensures
        unpacked_bundle(proof_bundle(proof, commitment, bits)) == Some((proof, commitment, bits)),
{
    let b = proof_bundle(proof, commitment, bits);
    lemma_le_u32_of_u32_le(bits);
    assert(b.subrange(36, b.len() as int) =~= proof);
    assert(b.subrange(4, 36) =~= commitment);
    assert(b.subrange(0, 4) =~= u32_le(bits));
    assert(le_u32(b) == le_u32(u32_le(bits)));
}

/// Law: every bundle of at least 36 bytes is the bundle of the parts it
/// unpacks to.
pub proof fn lemma_bundle_of_unpacked(bundle: Seq<u8>)
    requires
        bundle.len() >= 36,
    ensures
        unpacked_bundle(bundle) matches Some((p, c, b)) && proof_bundle(p, c, b) == bundle,
{
    crate::encoding::lemma_u32_le_of_le_u32(bundle.subrange(0, 4));
    assert(le_u32(bundle.subrange(0, 4)) == le_u32(bundle));
    let (p, c, b) = unpacked_bundle(bundle).unwrap();
    assert(proof_bundle(p, c, b) =~= bundle);
}

/// Law: a range proof made by `BulletproofRangeProof::prove` for a value in
/// range, serialized by `to_bytes`, verifies as a bundle.
pub proof fn lemma_bundle_of_certified_proof_verifies(
    proof: Seq<u8>,
    commitment: Seq<u8>,
    bits: usize,
    res: Result<(), VerifyError>,
)
    requires
        commitment.len() == 32,
        certifies(proof, commitment, bits),
        bundle_check_outcome(proof_bundle(proof, commitment, bits as u32), res),
    ensures
        res is Ok,
{
    lemma_unpack_inverts_bundle(proof, commitment, bits as u32);
}

}
