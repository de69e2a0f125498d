//! Pedersen commitments `C = v*G + r*H` over the Ristretto group.
//!
//! `G` is the Ristretto basepoint and `H` is hashed to the group from
//! [`GENERATOR_H_LABEL`] with SHA3-512, so both generators are transparent.
//! A commitment is held as its 32-byte compressed encoding; a blinding
//! factor is held as the 32-byte little-endian encoding of a scalar (it is
//! reduced modulo the group order before use).
use curve25519_dalek_ng::ristretto::RistrettoPoint;
use curve25519_dalek_ng::scalar::Scalar;
use sha3::Sha3_512;
use vstd::prelude::*;
use vstd::std_specs::cmp::PartialEqSpecImpl;

use crate::encoding::bytes_equal;

verus! {

/// The ASCII label `"Umbra Protocol Pedersen Commitment H"` that is hashed
/// to the second generator `H`.
pub const GENERATOR_H_LABEL: [u8; 36] = [
    0x55, 0x6d, 0x62, 0x72, 0x61, 0x20, 0x50, 0x72, 0x6f, 0x74, 0x6f, 0x63,
    0x6f, 0x6c, 0x20, 0x50, 0x65, 0x64, 0x65, 0x72, 0x73, 0x65, 0x6e, 0x20,
    0x43, 0x6f, 0x6d, 0x6d, 0x69, 0x74, 0x6d, 0x65, 0x6e, 0x74, 0x20, 0x48,
];

/// The compressed encoding of `value*G + blinding*H`, where `H` is the point
/// that `RistrettoPoint::hash_from_bytes::<Sha3_512>` derives from `label`
/// and `blinding` is read as a scalar modulo the group order.
pub uninterp spec fn pedersen_commitment(label: Seq<u8>, value: u64, blinding: Seq<u8>) -> Seq<u8>;

/// The commitment that [`Commitment::new`] computes for `value` and `blinding`.
pub open spec fn commitment_of(value: u64, blinding: Seq<u8>) -> Seq<u8> {
    pedersen_commitment(GENERATOR_H_LABEL@, value, blinding)
}

/// Whether `value` and `blinding` open the commitment encoded by `c`.
pub open spec fn opens(c: Seq<u8>, value: u64, blinding: Seq<u8>) -> bool {
    commitment_of(value, blinding) == c
}

/// Computes a Pedersen commitment with curve25519-dalek-ng: hashes `label`
/// to `H` with `RistrettoPoint::hash_from_bytes::<Sha3_512>`, then calls
/// `RistrettoPoint::vartime_double_scalar_mul_basepoint(blinding, H, value)`
/// and compresses the point. Trusted: the result is named
/// [`pedersen_commitment`] of the three inputs; and with the same label
/// and blinding, every other value gives other bytes, since two such
/// points differ by `(v - v')*G`, which is not the identity for
/// `0 < |v - v'| < 2^64`, below the order of `G`, and compression is
/// injective on the group.
#[verifier::external_body]
fn pedersen_commit_bytes(label: &[u8], value: u64, blinding: &[u8; 32]) -> (c: [u8; 32])
    ensures
        c@ == pedersen_commitment(label@, value, blinding@),
        forall|v: u64| v != value ==> #[trigger] pedersen_commitment(label@, v, blinding@) != c@,
{
    let h = RistrettoPoint::hash_from_bytes::<Sha3_512>(label);
    let r = Scalar::from_bytes_mod_order(*blinding);
    RistrettoPoint::vartime_double_scalar_mul_basepoint(&r, &h, &Scalar::from(value))
        .compress()
        .to_bytes()
}

/// A Pedersen commitment, held as its 32-byte compressed encoding.
#[derive(Clone, Copy, Debug)]
pub struct Commitment {
    bytes: [u8; 32],
}

impl View for Commitment {
    type V = Seq<u8>;

    closed spec fn view(&self) -> Seq<u8> {
        self.bytes@
    }
}

impl Commitment {
    /// Commits to `value` with the given `blinding` factor.
    pub fn new(value: u64, blinding: [u8; 32]) -> (c: Commitment)
        ensures
            c@ == commitment_of(value, blinding@),
            forall|v: u64| v != value ==> !#[trigger] opens(c@, v, blinding@),
    {
        let bytes = pedersen_commit_bytes(&GENERATOR_H_LABEL, value, &blinding);
        Commitment { bytes }
    }

    /// Whether `value` and `blinding` open this commitment.
    pub fn open(&self, value: u64, blinding: [u8; 32]) -> (is_opening: bool)
        ensures
            is_opening == opens(self@, value, blinding@),
    {
        let recomputed = Commitment::new(value, blinding);
        recomputed.eq_commitment(self)
    }

    /// The compressed 32-byte representation.
    pub fn as_bytes(&self) -> (b: &[u8; 32])
        ensures
            b@ == self@,
    {
        &self.bytes
    }

    /// Reads a commitment from its compressed form; every 32-byte string is
    /// accepted.
    pub fn from_bytes(bytes: &[u8; 32]) -> (c: Option<Commitment>)
        ensures
            c matches Some(c) && c@ == bytes@,
    {
        Some(Commitment { bytes: *bytes })
    }

    /// Whether two commitments have the same encoding.
    pub fn eq_commitment(&self, other: &Commitment) -> (eq: bool)
        ensures
            eq == (self@ == other@),
    {
        bytes_equal(&self.bytes, &other.bytes)
    }
}

impl PartialEq for Commitment {
    fn eq(&self, other: &Commitment) -> (eq: bool) {
        bytes_equal(&self.bytes, &other.bytes)
    }
}

impl PartialEqSpecImpl for Commitment {
    open spec fn obeys_eq_spec() -> bool {
        true
    }

    open spec fn eq_spec(&self, other: &Commitment) -> bool {
        self@ == other@
    }
}

impl Eq for Commitment {
}

/// Law: a commitment is opened by the value and blinding factor it was made
/// from.
pub proof fn lemma_commitment_opens_with_its_opening(value: u64, blinding: Seq<u8>)
    ensures
        opens(commitment_of(value, blinding), value, blinding),
{
}

/// Law: a commitment is determined by its bytes, so reading back the bytes
/// of a commitment gives the same commitment.
pub proof fn lemma_commitment_determined_by_bytes(a: Commitment, b: Commitment)
    requires
        a@ == b@,
    ensures
        a == b,
{
    assert(a.bytes =~= b.bytes);
}

}
