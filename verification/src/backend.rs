//! The calls into `bulletproofs` that the range-proof modules make, each
//! behind a trusted wrapper, and the outside types they carry.
use bulletproofs::{BulletproofGens, PedersenGens, ProofError, RangeProof};
use curve25519_dalek_ng::constants::RISTRETTO_BASEPOINT_POINT;
use curve25519_dalek_ng::ristretto::{CompressedRistretto, RistrettoPoint};
use curve25519_dalek_ng::scalar::Scalar;
use merlin::Transcript;
use rand_core::OsRng;
use sha3::Sha3_512;
use vstd::arithmetic::power2::pow2;
use vstd::prelude::*;

use crate::commitment::pedersen_commitment;

verus! {

#[verifier::external_type_specification]
#[verifier::external_body]
pub struct ExRangeProof(RangeProof);

#[verifier::external_type_specification]
#[verifier::external_body]
pub struct ExProofError(ProofError);

#[verifier::external_type_specification]
#[verifier::external_body]
pub struct ExOsRng(OsRng);

/// The bit-widths for which `bulletproofs` builds and checks range proofs.
pub open spec fn is_supported_bitsize(n: usize) -> bool {
    n == 8 || n == 16 || n == 32 || n == 64
}

/// The integer whose little-endian bytes are `s`.
pub open spec fn le_value(s: Seq<u8>) -> nat
    decreases s.len(),
{
    if s.len() == 0 {
        0
    } else {
        (s[0] + 256 * le_value(s.drop_first())) as nat
    }
}

/// The order `l = 2^252 + 27742317777372353535851937790883648493` of the
/// Ristretto group.
pub open spec fn group_order() -> nat {
    pow2(252) + 27742317777372353535851937790883648493nat
}

/// The 32-byte word `k` of `bytes`.
pub open spec fn word(bytes: Seq<u8>, k: int) -> Seq<u8> {
    bytes.subrange(32 * k, 32 * k + 32)
}

/// Whether `s` is the canonical encoding of a scalar, as
/// `Scalar::from_canonical_bytes` requires.
pub open spec fn is_scalar(s: Seq<u8>) -> bool {
    s.len() == 32 && le_value(s) < group_order()
}

/// Whether the 32-byte word `k` of `bytes` is a canonical scalar.
pub open spec fn canonical_scalar_at(bytes: Seq<u8>, k: int) -> bool {
    le_value(word(bytes, k)) < group_order()
}

/// Whether `RangeProof::from_bytes` accepts `bytes`: a whole number of
/// 32-byte words, four points and three scalars followed by an
/// inner-product proof of `2 * lg_n` points (`lg_n < 32`) and two scalars,
/// every scalar canonical.
pub open spec fn range_proof_well_formed(bytes: Seq<u8>) -> bool {
    let w = bytes.len() / 32;
    &&& bytes.len() % 32 == 0
    &&& w >= 9
    &&& (w - 9) % 2 == 0
    &&& (w - 9) / 2 < 32
    &&& canonical_scalar_at(bytes, 4)
    &&& canonical_scalar_at(bytes, 5)
    &&& canonical_scalar_at(bytes, 6)
    &&& canonical_scalar_at(bytes, w - 2)
    &&& canonical_scalar_at(bytes, w - 1)
}

/// Whether word `k` of a serialized range proof holds a point: `A`, `S`,
/// `T_1`, `T_2` (words 0 to 3), or one of the inner-product proof's `L`
/// and `R` (words 7 up to the last two).
pub open spec fn is_point_word(bytes: Seq<u8>, k: int) -> bool {
    (0 <= k < 4) || (7 <= k < bytes.len() / 32 - 2)
}

/// The number of rounds `lg_n` of the inner-product proof in `bytes`.
pub open spec fn ipp_rounds(bytes: Seq<u8>) -> nat {
    ((bytes.len() / 32 - 9) / 2) as nat
}

/// Whether the inner-product proof has the `log2(bits)` rounds that the
/// verifier asks for at width `bits`.
pub open spec fn rounds_match_width(bytes: Seq<u8>, bits: usize) -> bool {
    pow2(ipp_rounds(bytes)) == bits
}

/// Whether a 32-byte word is the encoding of the identity point (all
/// zero bytes).
pub open spec fn is_identity_encoding(w: Seq<u8>) -> bool {
    forall|i: int| 0 <= i < w.len() ==> w[i] == 0
}

/// Whether no point of a serialized range proof is the identity, which the
/// verifier refuses.
pub open spec fn no_identity_points(bytes: Seq<u8>) -> bool {
    forall|k: int| is_point_word(bytes, k) ==> !is_identity_encoding(#[trigger] word(bytes, k))
}

/// Whether `CompressedRistretto(bytes).decompress()` gives a point.
pub uninterp spec fn ristretto_decodes(bytes: Seq<u8>) -> bool;

/// Whether every point of a serialized range proof decodes.
pub open spec fn points_decode(bytes: Seq<u8>) -> bool {
    forall|k: int| is_point_word(bytes, k) ==> ristretto_decodes(#[trigger] word(bytes, k))
}

/// Whether `RangeProof::verify_single_with_rng` accepts the proof `proof`
/// for `commitment` at width `bits` when its random batching challenge
/// `Scalar::random(rng)` is the scalar encoded by `challenge`; the
/// generators are the basepoint and `H` hashed from `generator_label` with
/// SHA3-512, `BulletproofGens::new(bits, 1)`, and the transcript is opened
/// with `transcript_label`.
pub uninterp spec fn range_proof_accepted_at(
    proof: Seq<u8>,
    commitment: Seq<u8>,
    bits: usize,
    transcript_label: Seq<u8>,
    generator_label: Seq<u8>,
    challenge: Seq<u8>,
) -> bool;

/// Whether `proof` is accepted whatever batching challenge is drawn.
pub open spec fn valid_range_proof(
    proof: Seq<u8>,
    commitment: Seq<u8>,
    bits: usize,
    transcript_label: Seq<u8>,
    generator_label: Seq<u8>,
) -> bool {
    forall|c: Seq<u8>| is_scalar(c) ==> #[trigger] range_proof_accepted_at(
        proof,
        commitment,
        bits,
        transcript_label,
        generator_label,
        c,
    )
}

/// Whether `proof` is accepted for some batching challenge.
pub open spec fn accepted_for_some_challenge(
    proof: Seq<u8>,
    commitment: Seq<u8>,
    bits: usize,
    transcript_label: Seq<u8>,
    generator_label: Seq<u8>,
) -> bool {
    exists|c: Seq<u8>| is_scalar(c) && #[trigger] range_proof_accepted_at(
        proof,
        commitment,
        bits,
        transcript_label,
        generator_label,
        c,
    )
}

/// What the verifier fixes of every proof it accepts, whatever the
/// challenge: its points decode and none is the identity, its
/// inner-product proof has `log2(bits)` rounds, and the commitment decodes.
pub open spec fn passes_fixed_checks(proof: Seq<u8>, commitment: Seq<u8>, bits: usize) -> bool {
    &&& no_identity_points(proof)
    &&& points_decode(proof)
    &&& rounds_match_width(proof, bits)
    &&& ristretto_decodes(commitment)
}

/// A range proof parsed by `RangeProof::from_bytes`, with the bytes it was
/// parsed from. Only [`range_proof_from_bytes`] makes one.
pub struct ParsedRangeProof {
    proof: RangeProof,
    bytes: Ghost<Seq<u8>>,
}

impl ParsedRangeProof {
    /// The bytes the proof was parsed from.
    pub closed spec fn bytes(&self) -> Seq<u8> {
        self.bytes@
    }
}

/// Calls `RangeProof::prove_single_with_rng` with the Pedersen generators
/// `PedersenGens { B: RISTRETTO_BASEPOINT_POINT, B_blinding: H }`, where
/// `H = RistrettoPoint::hash_from_bytes::<Sha3_512>(generator_label)`,
/// `BulletproofGens::new(bits, 1)` and a fresh `Transcript::new(label)`, and
/// hands back the proof's `to_bytes()` and the commitment's bytes.
/// Trusted, as the source shows: every bit-width outside 8, 16, 32, 64 is
/// refused before proving; the commitment returned is
/// `pc_gens.commit(value, blinding)`, the same point as
/// `RistrettoPoint::vartime_double_scalar_mul_basepoint(blinding, H, value)`
/// and so [`pedersen_commitment`] of the generator label; `to_bytes` writes
/// a proof that `RangeProof::from_bytes` reads back, whose points are
/// compressions of group points (so they decode) and whose inner-product
/// proof has `log2(bits)` rounds; and for a value in `[0, 2^bits)` the
/// proof is accepted whatever the verifier's challenge, as long as none of
/// its points happens to be the identity, which the verifier refuses (the
/// completeness that the crate's documented example, prove then verify,
/// relies on). The proof bytes depend on `rng`, and so does whether
/// proving succeeds at a supported width; neither is claimed.
#[verifier::external_body]
pub(crate) fn prove_single_with_rng(
    label: &'static [u8],
    generator_label: &[u8],
    value: u64,
    blinding: &[u8; 32],
    bits: usize,
    rng: &mut OsRng,
) -> (res: Result<(Vec<u8>, [u8; 32]), ProofError>)
    requires
        1 <= bits <= 64,
    ensures
        !is_supported_bitsize(bits) ==> res is Err,
        res matches Ok((p, c)) ==> {
            &&& c@ == pedersen_commitment(generator_label@, value, blinding@)
            &&& range_proof_well_formed(p@)
            &&& points_decode(p@)
            &&& rounds_match_width(p@, bits)
            &&& ristretto_decodes(c@)
            &&& (value as int) < pow2(bits as nat) && no_identity_points(p@) ==> valid_range_proof(
                p@,
                c@,
                bits,
                label@,
                generator_label@,
            )
        },
{
    let h = RistrettoPoint::hash_from_bytes::<Sha3_512>(generator_label);
    let pc_gens = PedersenGens { B: RISTRETTO_BASEPOINT_POINT, B_blinding: h };
    let bp_gens = BulletproofGens::new(bits, 1);
    let mut transcript = Transcript::new(label);
    let r = Scalar::from_bytes_mod_order(*blinding);
    match RangeProof::prove_single_with_rng(&bp_gens, &pc_gens, &mut transcript, value, &r, bits, rng) {
        Ok((proof, commitment)) => Ok((proof.to_bytes(), commitment.to_bytes())),
        Err(e) => Err(e),
    }
}

/// Calls `RangeProof::from_bytes`. Trusted: as the source shows, the
/// result is `Ok` exactly when [`range_proof_well_formed`] holds, and the
/// parsed proof keeps the bytes it came from.
#[verifier::external_body]
pub(crate) fn range_proof_from_bytes(bytes: &[u8]) -> (res: Result<ParsedRangeProof, ProofError>)
    ensures
        res is Ok <==> range_proof_well_formed(bytes@),
        res matches Ok(p) ==> p.bytes() == bytes@,
{
    match RangeProof::from_bytes(bytes) {
        Ok(proof) => Ok(ParsedRangeProof { proof, bytes: Ghost(bytes@) }),
        Err(e) => Err(e),
    }
}

/// Calls `RangeProof::verify_single_with_rng` with the Pedersen generators
/// built from `generator_label` as in [`prove_single_with_rng`],
/// `BulletproofGens::new(bits, 1)` and a fresh `Transcript::new(label)`.
/// Trusted, as the source shows: every bit-width outside 8, 16, 32, 64 is
/// refused; the one random input is the batching challenge
/// `Scalar::random(rng)`, so a proof accepted at every challenge
/// ([`valid_range_proof`]) is accepted, and an accepted proof is accepted
/// at the challenge drawn; and whatever the challenge, a proof is refused
/// when one of its points is the identity (`validate_and_append_point`) or
/// does not decode, when its inner-product proof does not have
/// `log2(bits)` rounds (`verification_scalars`), or when the commitment
/// does not decode (`optional_multiscalar_mul`). Which challenge is drawn
/// is not claimed.
#[verifier::external_body]
pub(crate) fn verify_single_with_rng(
    proof: &ParsedRangeProof,
    label: &'static [u8],
    generator_label: &[u8],
    commitment: &[u8; 32],
    bits: usize,
    rng: &mut OsRng,
) -> (res: Result<(), ProofError>)
    requires
        1 <= bits <= 64,
    ensures
        !is_supported_bitsize(bits) ==> res is Err,
        is_supported_bitsize(bits) && valid_range_proof(proof.bytes(), commitment@, bits, label@, generator_label@)
            ==> res is Ok,
        res is Ok ==> passes_fixed_checks(proof.bytes(), commitment@, bits),
        res is Ok ==> exists|c: Seq<u8>| is_scalar(c) && #[trigger] range_proof_accepted_at(
            proof.bytes(),
            commitment@,
            bits,
            label@,
            generator_label@,
            c,
        ),
{
    let h = RistrettoPoint::hash_from_bytes::<Sha3_512>(generator_label);
    let pc_gens = PedersenGens { B: RISTRETTO_BASEPOINT_POINT, B_blinding: h };
    let bp_gens = BulletproofGens::new(bits, 1);
    let mut transcript = Transcript::new(label);
    let v = CompressedRistretto(*commitment);
    proof.proof.verify_single_with_rng(&bp_gens, &pc_gens, &mut transcript, &v, bits, rng)
}

/// Calls `RangeProof::verify_single` (which draws its batching challenge
/// from the thread RNG) with the generators and transcript of
/// [`verify_single_with_rng`]. Trusted, as for that wrapper: unsupported
/// widths are refused, a [`valid_range_proof`] is accepted, and an accepted
/// proof passes the checks fixed whatever the challenge and is accepted at
/// the challenge drawn, which is not claimed.
#[verifier::external_body]
pub(crate) fn verify_single(
    proof: &ParsedRangeProof,
    label: &'static [u8],
    generator_label: &[u8],
    commitment: &[u8; 32],
    bits: usize,
) -> (res: Result<(), ProofError>)
    requires
        1 <= bits <= 64,
    ensures
        !is_supported_bitsize(bits) ==> res is Err,
        is_supported_bitsize(bits) && valid_range_proof(proof.bytes(), commitment@, bits, label@, generator_label@)
            ==> res is Ok,
        res is Ok ==> passes_fixed_checks(proof.bytes(), commitment@, bits),
        res is Ok ==> exists|c: Seq<u8>| is_scalar(c) && #[trigger] range_proof_accepted_at(
            proof.bytes(),
            commitment@,
            bits,
            label@,
            generator_label@,
            c,
        ),
{
    let h = RistrettoPoint::hash_from_bytes::<Sha3_512>(generator_label);
    let pc_gens = PedersenGens { B: RISTRETTO_BASEPOINT_POINT, B_blinding: h };
    let bp_gens = BulletproofGens::new(bits, 1);
    let mut transcript = Transcript::new(label);
    let v = CompressedRistretto(*commitment);
    proof.proof.verify_single(&bp_gens, &pc_gens, &mut transcript, &v, bits)
}

}
