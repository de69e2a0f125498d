//! Bulletproofs range proofs that a committed value lies in `[0, 2^bits)`.
use bulletproofs::ProofError;
use rand_core::OsRng;
use vstd::arithmetic::power2::pow2;
use vstd::prelude::*;

use crate::backend::{
    accepted_for_some_challenge, is_supported_bitsize, no_identity_points, passes_fixed_checks,
    prove_single_with_rng, range_proof_from_bytes, range_proof_well_formed, valid_range_proof,
    verify_single_with_rng,
};
use crate::commitment::{commitment_of, GENERATOR_H_LABEL};
use crate::encoding::{push_all, push_u32_le, u32_le};

verus! {

/// The ASCII transcript label `"Umbra Range Proof"` shared by prover and
/// verifier.
pub const RANGE_PROOF_LABEL: [u8; 17] = [
    0x55, 0x6d, 0x62, 0x72, 0x61, 0x20, 0x52, 0x61, 0x6e, 0x67, 0x65, 0x20, 0x50, 0x72, 0x6f,
    0x6f, 0x66,
];

/// Error type for range-proof operations.
#[derive(Debug, PartialEq, Eq, Structural)]
pub enum RangeProofError {
    ProofGenerationFailed,
    ProofVerificationFailed,
    InvalidBits,
}

/// Whether `bits` lies outside the accepted range `[1, 64]`.
pub open spec fn bits_out_of_range(bits: usize) -> bool {
    bits == 0 || bits > 64
}

/// Whether `proof` is a well-formed range proof, under the commitment
/// layer's generators and the shared transcript label, that the
/// commitment `commitment` holds a value in `[0, 2^bits)`: the verifier
/// accepts it whatever batching challenge it draws.
pub open spec fn certifies(proof: Seq<u8>, commitment: Seq<u8>, bits: usize) -> bool {
    &&& range_proof_well_formed(proof)
    &&& is_supported_bitsize(bits)
    &&& no_identity_points(proof)
    &&& valid_range_proof(proof, commitment, bits, RANGE_PROOF_LABEL@, GENERATOR_H_LABEL@)
}

/// What holds of a proof that the verifier has accepted once: it passes
/// the checks fixed whatever the challenge (no identity point, points and
/// commitment decode, `log2(bits)` inner-product rounds), and the
/// verification equations held at the challenge drawn.
pub open spec fn passed_verification(proof: Seq<u8>, commitment: Seq<u8>, bits: usize) -> bool {
    &&& passes_fixed_checks(proof, commitment, bits)
    &&& accepted_for_some_challenge(proof, commitment, bits, RANGE_PROOF_LABEL@, GENERATOR_H_LABEL@)
}

/// The serialized form `[ bits: u32 LE | commitment (32 bytes) | proof ]`.
pub open spec fn proof_bundle(proof: Seq<u8>, commitment: Seq<u8>, bits: u32) -> Seq<u8> {
    u32_le(bits) + commitment + proof
}

/// The answer to a verification once `bulletproofs` has checked the
/// proof: accepted, or failed whatever the error.
pub fn verification_verdict(checked: Result<(), ProofError>) -> (res: Result<(), RangeProofError>)
    ensures
        checked is Ok <==> res is Ok,
        checked is Err ==> res == Err::<(), RangeProofError>(RangeProofError::ProofVerificationFailed),
{
    match checked {
        Ok(()) => Ok(()),
        Err(_) => Err(RangeProofError::ProofVerificationFailed),
    }
}

/// A Bulletproofs range proof together with the commitment it speaks of and
/// its bit-width. The proof is held in its serialized form.
pub struct BulletproofRangeProof {
    proof: Vec<u8>,
    commitment: [u8; 32],
    bits: usize,
}

impl BulletproofRangeProof {
    #[verifier::type_invariant]
    spec fn well_formed(self) -> bool {
        &&& 1 <= self.bits <= 64
        &&& range_proof_well_formed(self.proof@)
    }

    /// The serialized proof.
    pub closed spec fn proof_bytes(&self) -> Seq<u8> {
        self.proof@
    }

    /// The compressed commitment the proof attests to.
    pub closed spec fn commitment_bytes(&self) -> Seq<u8> {
        self.commitment@
    }

    /// The bit-width of the range.
    pub closed spec fn bit_width(&self) -> usize {
        self.bits
    }

    /// Proves that `value` lies in `[0, 2^bits)`, committing to it with
    /// `blinding`; `rng` supplies the prover's randomness.
    pub fn prove(value: u64, blinding: [u8; 32], bits: usize, rng: &mut OsRng) -> (res: Result<
        BulletproofRangeProof,
        RangeProofError,
    >)
        ensures
            bits_out_of_range(bits) <==> res == Err::<BulletproofRangeProof, _>(
                RangeProofError::InvalidBits,
            ),
            !bits_out_of_range(bits) && !is_supported_bitsize(bits) ==> res == Err::<
                BulletproofRangeProof,
                _,
            >(RangeProofError::ProofGenerationFailed),
            res matches Err(e) ==> e == RangeProofError::InvalidBits || e
                == RangeProofError::ProofGenerationFailed,
            res matches Ok(p) ==> {
                &&& p.bit_width() == bits
                &&& p.commitment_bytes() == commitment_of(value, blinding@)
                &&& range_proof_well_formed(p.proof_bytes())
                &&& (value as int) < pow2(bits as nat) && no_identity_points(p.proof_bytes())
                    ==> certifies(
                    p.proof_bytes(),
                    p.commitment_bytes(),
                    p.bit_width(),
                )
            },
    {
        if bits == 0 || bits > 64 {
            return Err(RangeProofError::InvalidBits);
        }
        match prove_single_with_rng(&RANGE_PROOF_LABEL, &GENERATOR_H_LABEL, value, &blinding, bits, rng) {
            Ok((proof, commitment)) => Ok(BulletproofRangeProof { proof, commitment, bits }),
            Err(_) => Err(RangeProofError::ProofGenerationFailed),
        }
    }

    /// Verifies the proof against its commitment; `rng` draws the random
    /// batching challenge.
    pub fn verify(&self, rng: &mut OsRng) -> (res: Result<(), RangeProofError>)
        ensures
            res matches Err(e) ==> e == RangeProofError::ProofVerificationFailed,
            !is_supported_bitsize(self.bit_width()) ==> res is Err,
            certifies(self.proof_bytes(), self.commitment_bytes(), self.bit_width()) ==> res is Ok,
            res is Ok ==> passed_verification(self.proof_bytes(), self.commitment_bytes(), self.bit_width()),
    {
        proof {
            use_type_invariant(self);
        }
        match range_proof_from_bytes(self.proof.as_slice()) {
            Err(_) => Err(RangeProofError::ProofVerificationFailed),
            Ok(proof) => verification_verdict(
                verify_single_with_rng(&proof, &RANGE_PROOF_LABEL, &GENERATOR_H_LABEL, &self.commitment, self.bits, rng),
            ),
        }
    }

    /// The compressed commitment that the proof attests to.
    pub fn commitment(&self) -> (c: &[u8; 32])
        ensures
            c@ == self.commitment_bytes(),
    {
        &self.commitment
    }

    /// The bit-width of the range.
    pub fn bits(&self) -> (b: usize)
        ensures
            b == self.bit_width(),
            1 <= b <= 64,
    {
        proof {
            use_type_invariant(self);
        }
        self.bits
    }

    /// Serializes as `[ bits: u32 LE | commitment | proof bytes ]`.
    pub fn to_bytes(&self) -> (out: Vec<u8>)
        ensures
            out@ == proof_bundle(self.proof_bytes(), self.commitment_bytes(), self.bit_width() as u32),
            out@.len() == 36 + self.proof_bytes().len(),
            out@.len() >= 36 + 288,
    {
        proof {
            use_type_invariant(self);
        }
        let mut out: Vec<u8> = Vec::new();
        push_u32_le(&mut out, self.bits as u32);
        push_all(&mut out, &self.commitment);
        push_all(&mut out, self.proof.as_slice());
        out
    }
}

}
