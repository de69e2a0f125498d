//! Verifier attestations: the signed statements that an off-chain verifier
//! checked a proof (audit) or a release condition (escrow).
//!
//! The library builds the exact byte string that the verifier signed; the
//! Ed25519 check itself is carried out by the ledger host, which aborts the
//! transaction when it fails. A [`SignatureCheck`] is that pending check.
use vstd::prelude::*;

use crate::encoding::{push_all, push_u64_le, u64_le};

verus! {

/// The ASCII domain prefix `"umbra-audit-v1"` of an audit attestation.
pub const AUDIT_ATTESTATION_DOMAIN: [u8; 14] = [
    0x75, 0x6d, 0x62, 0x72, 0x61, 0x2d, 0x61, 0x75, 0x64, 0x69, 0x74, 0x2d, 0x76, 0x31,
];

/// An Ed25519 verification that the host must perform: `signature` over
/// `message` under `public_key`.
#[derive(Debug)]
pub struct SignatureCheck {
    pub public_key: [u8; 32],
    pub message: Vec<u8>,
    pub signature: [u8; 64],
}

/// Outcome of an attestation verification.
#[derive(Clone, Copy, Debug, PartialEq, Eq, Structural)]
pub enum VerificationResult {
    /// Signature valid; attested result is pass.
    Passed,
    /// Signature valid; attested result is fail (the proof was invalid).
    ProofFailed,
    /// Signature valid; the result byte is neither 0x00 nor 0x01.
    MalformedInput,
}

/// The attested result and the signature check on which it stands.
#[derive(Debug)]
pub struct Attestation {
    pub result: VerificationResult,
    pub check: SignatureCheck,
}

/// The 99-byte audit attestation message:
/// `"umbra-audit-v1" | entity (32) | asset_code (4) | threshold (8, LE)
///  | timestamp (8, LE) | commitment (32) | result (1)`.
pub open spec fn audit_attestation_message(
    entity: Seq<u8>,
    asset_code: Seq<u8>,
    threshold: u64,
    timestamp: u64,
    commitment: Seq<u8>,
    result: u8,
) -> Seq<u8> {
    AUDIT_ATTESTATION_DOMAIN@ + entity + asset_code + u64_le(threshold) + u64_le(timestamp)
        + commitment + seq![result]
}

/// The result that an attested result byte stands for.
pub open spec fn attested_result(proof_result: u8) -> VerificationResult {
    if proof_result == 0x01 {
        VerificationResult::Passed
    } else if proof_result == 0x00 {
        VerificationResult::ProofFailed
    } else {
        VerificationResult::MalformedInput
    }
}

/// Whether `check` is the verification of `signature` over `message` under
/// `key`.
pub open spec fn checks(check: SignatureCheck, key: Seq<u8>, message: Seq<u8>, signature: Seq<u8>) -> bool {
    check.public_key@ == key && check.message@ == message && check.signature@ == signature
}

/// Builds the audit attestation message.
pub fn audit_attestation_bytes(
    entity: &[u8; 32],
    asset_code: &[u8; 4],
    threshold: u64,
    timestamp: u64,
    commitment: &[u8; 32],
    result: u8,
) -> (msg: Vec<u8>)
    ensures
        msg@ == audit_attestation_message(entity@, asset_code@, threshold, timestamp, commitment@, result),
        msg@.len() == 99,
{
    let mut msg: Vec<u8> = Vec::new();
    push_all(&mut msg, &AUDIT_ATTESTATION_DOMAIN);
    push_all(&mut msg, entity);
    push_all(&mut msg, asset_code);
    push_u64_le(&mut msg, threshold);
    push_u64_le(&mut msg, timestamp);
    push_all(&mut msg, commitment);
    msg.push(result);
    assert(msg@ =~= audit_attestation_message(entity@, asset_code@, threshold, timestamp, commitment@, result));
    msg
}

/// Verifies the off-chain verifier's attestation of an audit proof result.
///
/// The attested result stands once `check`, the verifier's Ed25519
/// signature over the 99-byte message, is accepted; the host aborts on an
/// invalid signature whatever the result byte. A result byte other than
/// 0x00 or 0x01 is malformed and never passes.
pub fn verify_attestation(
    verifier_pubkey: &[u8; 32],
    entity_address: &[u8; 32],
    asset_code: &[u8; 4],
    threshold: u64,
    timestamp: u64,
    commitment: &[u8; 32],
    proof_result: u8,
    signature: &[u8; 64],
) -> (a: Attestation)
    ensures
        a.result == attested_result(proof_result),
        checks(
            a.check,
            verifier_pubkey@,
            audit_attestation_message(
                entity_address@,
                asset_code@,
                threshold,
                timestamp,
                commitment@,
                proof_result,
            ),
            signature@,
        ),
{
    let message = audit_attestation_bytes(
        entity_address,
        asset_code,
        threshold,
        timestamp,
        commitment,
        proof_result,
    );
    let check = SignatureCheck { public_key: *verifier_pubkey, message, signature: *signature };
    let result = if proof_result == 0x01 {
        VerificationResult::Passed
    } else if proof_result == 0x00 {
        VerificationResult::ProofFailed
    } else {
        VerificationResult::MalformedInput
    };
    Attestation { result, check }
}

/// Law: every audit attestation message is 99 bytes long, with the result
/// byte last.
pub proof fn lemma_audit_message_layout(
    entity: Seq<u8>,
    asset_code: Seq<u8>,
    threshold: u64,
    timestamp: u64,
    commitment: Seq<u8>,
    result: u8,
)
    requires
        entity.len() == 32,
        asset_code.len() == 4,
        commitment.len() == 32,
    ensures
        ({
            let m = audit_attestation_message(entity, asset_code, threshold, timestamp, commitment, result);
            &&& m.len() == 99
            &&& m.subrange(0, 14) == AUDIT_ATTESTATION_DOMAIN@
            &&& m.subrange(14, 46) == entity
            &&& m.subrange(46, 50) == asset_code
            &&& m.subrange(50, 58) == u64_le(threshold)
            &&& m.subrange(58, 66) == u64_le(timestamp)
            &&& m.subrange(66, 98) == commitment
            &&& m[98] == result
        }),
{
    let m = audit_attestation_message(entity, asset_code, threshold, timestamp, commitment, result);
    assert(m.subrange(0, 14) =~= AUDIT_ATTESTATION_DOMAIN@);
    assert(m.subrange(14, 46) =~= entity);
    assert(m.subrange(46, 50) =~= asset_code);
    assert(m.subrange(50, 58) =~= u64_le(threshold));
    assert(m.subrange(58, 66) =~= u64_le(timestamp));
    assert(m.subrange(66, 98) =~= commitment);
}

}
