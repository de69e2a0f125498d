//! The Umbra Audit contract's logic: a regulator-run threshold registry and
//! the acceptance of verifier-attested proof results, one asset or many.
//!
//! Each operation takes the stored values it reads and returns what is to
//! be written, the address whose authorization it needs, the signature
//! checks the host must accept, and the events to publish. No operation
//! takes or returns a private balance.
use vstd::prelude::*;

use crate::address::Address;
use crate::encoding::{le_u32, lemma_le_u32_of_u32_le, read_array, read_u32_le, u32_le};
use crate::proof_verifier::{
    attested_result, audit_attestation_message, checks, verify_attestation, SignatureCheck,
    VerificationResult,
};

verus! {

/// Size of one record of a multi-asset proofs blob.
pub const PROOF_RECORD_SIZE: u64 = 108;

/// Errors that abort an audit operation.
#[derive(Clone, Copy, Debug, PartialEq, Eq, Structural)]
pub enum AuditError {
    AlreadyInitialized,
    NotInitialized,
    NoThreshold,
    BlobTooShort,
    BlobLengthMismatch,
    CountOverflow,
}

impl AuditError {
    /// The text with which the contract aborts on this error.
    pub fn message(&self) -> (m: &'static str)
        ensures
            m@ == audit_error_text(*self),
    {
        match self {
            AuditError::AlreadyInitialized => "already initialized",
            AuditError::NotInitialized => "not initialized",
            AuditError::NoThreshold => "no threshold set for asset",
            AuditError::BlobTooShort => "proofs_blob too short",
            AuditError::BlobLengthMismatch => "proofs_blob length mismatch",
            AuditError::CountOverflow => "attempt to multiply with overflow",
        }
    }
}

/// The abort text of each audit error.
pub open spec fn audit_error_text(e: AuditError) -> Seq<char> {
    match e {
        AuditError::AlreadyInitialized => "already initialized"@,
        AuditError::NotInitialized => "not initialized"@,
        AuditError::NoThreshold => "no threshold set for asset"@,
        AuditError::BlobTooShort => "proofs_blob too short"@,
        AuditError::BlobLengthMismatch => "proofs_blob length mismatch"@,
        AuditError::CountOverflow => "attempt to multiply with overflow"@,
    }
}

/// The contract's instance configuration, present once initialized.
#[derive(Debug)]
pub struct AuditConfig {
    pub regulator: Address,
    pub verifier_key: [u8; 32],
}

/// A threshold to store for an asset, and the regulator who must
/// authorize it.
#[derive(Debug)]
pub struct ThresholdUpdate {
    pub regulator: Address,
    pub asset_code: [u8; 4],
    pub threshold: u64,
}

/// Emitted on every proof submission attempt, pass or fail. Holds public
/// data only.
#[derive(Debug)]
pub struct ProofVerifiedEvent {
    pub entity: Address,
    pub asset_code: [u8; 4],
    pub threshold: u64,
    pub timestamp: u64,
    /// 32-byte Pedersen commitment; does not reveal the balance.
    pub commitment: [u8; 32],
    pub passed: bool,
}

/// The outcome of one attested proof: whether it passed, the signature
/// check it stands on and its event.
#[derive(Debug)]
pub struct ProofSubmission {
    pub passed: bool,
    pub check: SignatureCheck,
    pub event: ProofVerifiedEvent,
}

/// One record of a multi-asset proofs blob.
#[derive(Clone, Copy, Debug)]
pub struct ProofRecord {
    pub asset_code: [u8; 4],
    pub commitment: [u8; 32],
    pub proof_result: u8,
    pub signature: [u8; 64],
}

/// The outcome of a multi-asset submission: the outcomes of the records,
/// taken in order up to the first whose asset has no threshold, and
/// whether the records ran into such a one.
#[derive(Debug)]
pub struct MultiSubmission {
    /// Whether every outcome passed.
    pub all_passed: bool,
    pub outcomes: Vec<ProofSubmission>,
    /// Whether a record's asset has no threshold. The submission is then
    /// refused with `NoThreshold`, once the signature checks of the
    /// outcomes before that record have been made.
    pub missing_threshold: bool,
}

/// Whether `s` is the outcome of the attested result `proof_result` for
/// `entity` (whose 32-byte identity is `entity_id`), with the verifier key
/// `key` and the stored `threshold`.
pub open spec fn is_submission(
    s: ProofSubmission,
    key: Seq<u8>,
    entity: Seq<u8>,
    entity_id: Seq<u8>,
    asset_code: Seq<u8>,
    commitment: Seq<u8>,
    proof_result: u8,
    signature: Seq<u8>,
    threshold: u64,
    timestamp: u64,
) -> bool {
    &&& s.passed == (attested_result(proof_result) == VerificationResult::Passed)
    &&& checks(
        s.check,
        key,
        audit_attestation_message(entity_id, asset_code, threshold, timestamp, commitment, proof_result),
        signature,
    )
    &&& s.event.entity@ == entity
    &&& s.event.asset_code@ == asset_code
    &&& s.event.threshold == threshold
    &&& s.event.timestamp == timestamp
    &&& s.event.commitment@ == commitment
    &&& s.event.passed == s.passed
}

/// The number of records a blob announces in its first four bytes.
pub open spec fn blob_count(blob: Seq<u8>) -> u32 {
    le_u32(blob)
}

/// The record at index `i` of a blob.
pub open spec fn blob_record_at(blob: Seq<u8>, i: int) -> (Seq<u8>, Seq<u8>, u8, Seq<u8>) {
    let base = 4 + i * 108;
    (
        blob.subrange(base, base + 4),
        blob.subrange(base + 4, base + 36),
        blob[base + 36],
        blob.subrange(base + 40, base + 104),
    )
}

/// How a blob is refused, if it is: shorter than its count, a count whose
/// length overflows 32 bits, or a length other than `4 + 108 * count`.
pub open spec fn blob_error(blob: Seq<u8>) -> Option<AuditError> {
    if blob.len() < 4 {
        Some(AuditError::BlobTooShort)
    } else if blob_count(blob) * 108 > u32::MAX {
        Some(AuditError::CountOverflow)
    } else if blob.len() != 4 + blob_count(blob) * 108 {
        Some(AuditError::BlobLengthMismatch)
    } else {
        None
    }
}

/// Whether `r` holds the fields of record `i` of `blob`.
pub open spec fn is_record_of(r: ProofRecord, blob: Seq<u8>, i: int) -> bool {
    let (code, commitment, result, signature) = blob_record_at(blob, i);
    r.asset_code@ == code && r.commitment@ == commitment && r.proof_result == result
        && r.signature@ == signature
}

/// What submitting one attested proof answers: refused without a stored
/// threshold, then without a configuration; otherwise the submission of
/// the low byte of `proof_result`.
pub open spec fn single_submission_outcome(
    config: Option<AuditConfig>,
    threshold: Option<u64>,
    entity: Seq<u8>,
    entity_id: Seq<u8>,
    asset_code: Seq<u8>,
    commitment: Seq<u8>,
    proof_result: u32,
    signature: Seq<u8>,
    timestamp: u64,
    res: Result<ProofSubmission, AuditError>,
) -> bool {
    match threshold {
        None => res == Err::<ProofSubmission, AuditError>(AuditError::NoThreshold),
        Some(t) => match config {
            None => res == Err::<ProofSubmission, AuditError>(AuditError::NotInitialized),
            Some(c) => res matches Ok(s) && is_submission(
                s,
                c.verifier_key@,
                entity,
                entity_id,
                asset_code,
                commitment,
                (proof_result % 256) as u8,
                signature,
                t,
                timestamp,
            ),
        },
    }
}

/// What submitting a multi-asset proofs blob answers, `thresholds[i]`
/// being the stored threshold of the asset of record `i`: a malformed
/// blob is refused, then a missing configuration; otherwise the records
/// are taken in order up to the first whose asset has no threshold.
pub open spec fn blob_submission_outcome(
    config: Option<AuditConfig>,
    entity: Seq<u8>,
    entity_id: Seq<u8>,
    blob: Seq<u8>,
    thresholds: Seq<Option<u64>>,
    timestamp: u64,
    res: Result<MultiSubmission, AuditError>,
) -> bool {
    match blob_error(blob) {
        Some(e) => res == Err::<MultiSubmission, AuditError>(e),
        None => match config {
            None => res == Err::<MultiSubmission, AuditError>(AuditError::NotInitialized),
            Some(c) => res matches Ok(m) && {
                let k = m.outcomes@.len();
                &&& k <= blob_count(blob)
                &&& forall|j: int| 0 <= j < k ==> #[trigger] thresholds[j] is Some
                &&& m.missing_threshold <==> k < blob_count(blob)
                &&& k < blob_count(blob) ==> thresholds[k as int] is None
                &&& m.all_passed <==> forall|j: int| 0 <= j < k ==> #[trigger] m.outcomes@[j].passed
                &&& forall|j: int| 0 <= j < k ==> is_submission(
                    #[trigger] m.outcomes@[j],
                    c.verifier_key@,
                    entity,
                    entity_id,
                    blob_record_at(blob, j).0,
                    blob_record_at(blob, j).1,
                    blob_record_at(blob, j).2,
                    blob_record_at(blob, j).3,
                    thresholds[j]->Some_0,
                    timestamp,
                )
            },
        },
    }
}

/// The proofs blob holding the one record `asset_code | commitment |
/// result | 3 zero bytes | signature | 4 zero bytes`.
#[verifier::opaque]
pub open spec fn one_record_blob(asset_code: Seq<u8>, commitment: Seq<u8>, result: u8, signature: Seq<u8>) -> Seq<u8> {
    u32_le(1) + asset_code + commitment + seq![result, 0u8, 0u8, 0u8] + signature + seq![0u8, 0u8, 0u8, 0u8]
}

/// The outcome of one attested proof result, given the verifier key and
/// the stored threshold.
fn attest_one(
    verifier_key: &[u8; 32],
    entity: &Address,
    entity_id: &[u8; 32],
    asset_code: [u8; 4],
    commitment: [u8; 32],
    proof_result: u8,
    signature: &[u8; 64],
    threshold: u64,
    timestamp: u64,
) -> (s: ProofSubmission)
    ensures
        is_submission(
            s,
            verifier_key@,
            entity@,
            entity_id@,
            asset_code@,
            commitment@,
            proof_result,
            signature@,
            threshold,
            timestamp,
        ),
{
    let attestation = verify_attestation(
        verifier_key,
        entity_id,
        &asset_code,
        threshold,
        timestamp,
        &commitment,
        proof_result,
        signature,
    );
    let passed = match attestation.result {
        VerificationResult::Passed => true,
        _ => false,
    };
    let event = ProofVerifiedEvent {
        entity: entity.clone(),
        asset_code,
        threshold,
        timestamp,
        commitment,
        passed,
    };
    ProofSubmission { passed, check: attestation.check, event }
}

/// Splits a multi-asset proofs blob into its records.
///
/// Layout: `count: u32 LE | count records of 108 bytes`, each record being
/// `asset_code (4) | commitment (32) | result (1) | 3 reserved
/// | signature (64) | 4 reserved`.
pub fn parse_proofs_blob(blob: &[u8]) -> (res: Result<Vec<ProofRecord>, AuditError>)
    ensures
        match blob_error(blob@) {
            Some(e) => res == Err::<Vec<ProofRecord>, AuditError>(e),
            None => res matches Ok(records) && records@.len() == blob_count(blob@) && forall|i: int|
                0 <= i < records@.len() ==> is_record_of(#[trigger] records@[i], blob@, i),
        },
{
    if blob.len() < 4 {
        return Err(AuditError::BlobTooShort);
    }
    let count = read_u32_le(blob, 0);
    assert(blob@.subrange(0, 4)[0] == blob@[0] && blob@.subrange(0, 4)[1] == blob@[1]
        && blob@.subrange(0, 4)[2] == blob@[2] && blob@.subrange(0, 4)[3] == blob@[3]);
    let size: u64 = count as u64 * PROOF_RECORD_SIZE;
    if size > u32::MAX as u64 {
        return Err(AuditError::CountOverflow);
    }
    if blob.len() as u64 != 4 + size {
        return Err(AuditError::BlobLengthMismatch);
    }
    let n = blob.len();
    let mut records: Vec<ProofRecord> = Vec::new();
    let mut i: u32 = 0;
    while i < count
        invariant
            n == blob@.len(),
            i <= count,
            count == blob_count(blob@),
            blob@.len() == 4 + count * 108,
            records@.len() == i,
            forall|j: int| 0 <= j < i ==> is_record_of(#[trigger] records@[j], blob@, j),
        decreases count - i,
    {
        assert(4 + i * 108 + 108 <= n) by (nonlinear_arith)
            requires
                i < count,
                n == 4 + count * 108;
        let base: usize = 4 + (i as usize) * 108;
        let asset_code: [u8; 4] = read_array(blob, base);
        let commitment: [u8; 32] = read_array(blob, base + 4);
        let proof_result = blob[base + 36];
        let signature: [u8; 64] = read_array(blob, base + 40);
        records.push(ProofRecord { asset_code, commitment, proof_result, signature });
        i = i + 1;
    }
    Ok(records)
}

/// The Umbra Audit contract.
pub struct UmbraAudit;

impl UmbraAudit {
    /// Initializes the contract with a regulator and verifier key; refused
    /// once initialized.
    pub fn init(current: &Option<AuditConfig>, regulator: Address, verifier_key: [u8; 32]) -> (res:
        Result<AuditConfig, AuditError>)
        ensures
            current is Some ==> res == Err::<AuditConfig, AuditError>(AuditError::AlreadyInitialized),
            current is None ==> (res matches Ok(c) && c.regulator == regulator && c.verifier_key
                == verifier_key),
    {
        if current.is_some() {
            return Err(AuditError::AlreadyInitialized);
        }
        Ok(AuditConfig { regulator, verifier_key })
    }

    /// Sets the compliance threshold for an asset: the update to store,
    /// with the regulator whose authorization it needs.
    pub fn set_threshold(config: &Option<AuditConfig>, asset_code: [u8; 4], threshold: u64) -> (res:
        Result<ThresholdUpdate, AuditError>)
        ensures
            config is None ==> res == Err::<ThresholdUpdate, AuditError>(AuditError::NotInitialized),
            config matches Some(c) ==> (res matches Ok(u) && u.regulator@ == c.regulator@
                && u.asset_code == asset_code && u.threshold == threshold),
    {
        match config {
            Some(c) => Ok(ThresholdUpdate { regulator: c.regulator.clone(), asset_code, threshold }),
            None => Err(AuditError::NotInitialized),
        }
    }

    /// Rotates the verifier key; the result keeps the regulator, who must
    /// authorize the change.
    pub fn set_verifier_key(config: Option<AuditConfig>, verifier_key: [u8; 32]) -> (res: Result<
        AuditConfig,
        AuditError,
    >)
        ensures
            config is None ==> res == Err::<AuditConfig, AuditError>(AuditError::NotInitialized),
            config matches Some(old_c) ==> (res matches Ok(c) && c.regulator == old_c.regulator
                && c.verifier_key == verifier_key),
    {
        match config {
            Some(c) => Ok(AuditConfig { regulator: c.regulator, verifier_key }),
            None => Err(AuditError::NotInitialized),
        }
    }

    /// Accepts an attested proof result for one asset.
    ///
    /// `threshold` is the stored threshold for `asset_code`, `entity_id` the
    /// 32-byte identity of `entity` that the verifier signed, and
    /// `proof_result` is read as its low byte (1 = pass, 0 = fail). The
    /// returned `passed` stands once the returned signature check succeeds.
    pub fn submit_proof(
        config: &Option<AuditConfig>,
        threshold: Option<u64>,
        entity: &Address,
        entity_id: &[u8; 32],
        asset_code: [u8; 4],
        commitment: [u8; 32],
        proof_result: u32,
        signature: [u8; 64],
        timestamp: u64,
    ) -> (res: Result<ProofSubmission, AuditError>)
        ensures
            single_submission_outcome(
                *config,
                threshold,
                entity@,
                entity_id@,
                asset_code@,
                commitment@,
                proof_result,
                signature@,
                timestamp,
                res,
            ),
    {
        let threshold = match threshold {
            Some(t) => t,
            None => return Err(AuditError::NoThreshold),
        };
        let config = match config {
            Some(c) => c,
            None => return Err(AuditError::NotInitialized),
        };
        let result_byte = (proof_result % 256) as u8;
        Ok(
            attest_one(
                &config.verifier_key,
                entity,
                entity_id,
                asset_code,
                commitment,
                result_byte,
                &signature,
                threshold,
                timestamp,
            ),
        )
    }

    /// Accepts attested proof results for several assets; the aggregate
    /// passes exactly when every record passes.
    ///
    /// `records` is a parsed proofs blob (see [`parse_proofs_blob`]) and
    /// `thresholds[i]` the stored threshold for `records[i].asset_code`.
    /// The records are taken in order; at the first whose asset has no
    /// threshold the submission stops, and `missing_threshold` is set.
    pub fn submit_proofs_multi(
        config: &Option<AuditConfig>,
        entity: &Address,
        entity_id: &[u8; 32],
        records: &Vec<ProofRecord>,
        thresholds: &Vec<Option<u64>>,
        timestamp: u64,
    ) -> (res: Result<MultiSubmission, AuditError>)
        requires
            thresholds@.len() == records@.len(),
        ensures
            config is None ==> res == Err::<MultiSubmission, AuditError>(AuditError::NotInitialized),
            config is Some ==> (res matches Ok(m) && {
                let k = m.outcomes@.len();
                &&& k <= records@.len()
                &&& forall|j: int| 0 <= j < k ==> #[trigger] thresholds@[j] is Some
                &&& m.missing_threshold <==> k < records@.len()
                &&& k < records@.len() ==> thresholds@[k as int] is None
                &&& m.all_passed <==> forall|j: int| 0 <= j < k ==> #[trigger] m.outcomes@[j].passed
                &&& forall|j: int| 0 <= j < k ==> is_submission(
                    #[trigger] m.outcomes@[j],
                    config->Some_0.verifier_key@,
                    entity@,
                    entity_id@,
                    records@[j].asset_code@,
                    records@[j].commitment@,
                    records@[j].proof_result,
                    records@[j].signature@,
                    thresholds@[j]->Some_0,
                    timestamp,
                )
            }),
    {
        let key: [u8; 32] = match config {
            Some(c) => c.verifier_key,
            None => return Err(AuditError::NotInitialized),
        };
        let mut outcomes: Vec<ProofSubmission> = Vec::new();
        let mut all_passed = true;
        let mut i: usize = 0;
        while i < records.len()
            invariant
                i <= records@.len(),
                thresholds@.len() == records@.len(),
                config matches Some(c) && c.verifier_key == key,
                outcomes@.len() == i,
                forall|j: int| 0 <= j < i ==> #[trigger] thresholds@[j] is Some,
                all_passed <==> forall|j: int| 0 <= j < i ==> #[trigger] outcomes@[j].passed,
                forall|j: int| 0 <= j < i ==> is_submission(
                    #[trigger] outcomes@[j],
                    key@,
                    entity@,
                    entity_id@,
                    records@[j].asset_code@,
                    records@[j].commitment@,
                    records@[j].proof_result,
                    records@[j].signature@,
                    thresholds@[j]->Some_0,
                    timestamp,
                ),
            decreases records@.len() - i,
        {
            let threshold = match thresholds[i] {
                Some(t) => t,
                None => return Ok(MultiSubmission { all_passed, outcomes, missing_threshold: true }),
            };
            let r = &records[i];
            let outcome = attest_one(
                &key,
                entity,
                entity_id,
                r.asset_code,
                r.commitment,
                r.proof_result,
                &r.signature,
                threshold,
                timestamp,
            );
            let passed = outcome.passed;
            if !passed {
                all_passed = false;
            }
            let ghost before = outcomes@;
            outcomes.push(outcome);
            assert(forall|j: int| 0 <= j < i ==> outcomes@[j] == before[j]);
            assert(outcomes@[i as int].passed == passed);
            i = i + 1;
        }
        Ok(MultiSubmission { all_passed, outcomes, missing_threshold: false })
    }

    /// Accepts the attested proof results of a multi-asset proofs blob:
    /// parses it (see [`parse_proofs_blob`]) and submits its records (see
    /// [`UmbraAudit::submit_proofs_multi`]); `thresholds[i]` is the stored
    /// threshold for the asset of record `i`.
    pub fn submit_proofs_blob(
        config: &Option<AuditConfig>,
        entity: &Address,
        entity_id: &[u8; 32],
        blob: &[u8],
        thresholds: &Vec<Option<u64>>,
        timestamp: u64,
    ) -> (res: Result<MultiSubmission, AuditError>)
        requires
            blob_error(blob@) is None ==> thresholds@.len() == blob_count(blob@),
        ensures
            blob_submission_outcome(*config, entity@, entity_id@, blob@, thresholds@, timestamp, res),
    {
        let records = parse_proofs_blob(blob)?;
        let res = UmbraAudit::submit_proofs_multi(config, entity, entity_id, &records, thresholds, timestamp);
        res
    }

    /// The regulator address.
    pub fn get_regulator(config: &Option<AuditConfig>) -> (res: Result<&Address, AuditError>)
        ensures
            config is None ==> res == Err::<&Address, AuditError>(AuditError::NotInitialized),
            config matches Some(c) ==> (res matches Ok(r) && *r == c.regulator),
    {
        match config {
            Some(c) => Ok(&c.regulator),
            None => Err(AuditError::NotInitialized),
        }
    }

    /// The verifier's Ed25519 public key.
    pub fn get_verifier_key(config: &Option<AuditConfig>) -> (res: Result<[u8; 32], AuditError>)
        ensures
            config is None ==> res == Err::<[u8; 32], AuditError>(AuditError::NotInitialized),
            config matches Some(c) ==> res == Ok::<[u8; 32], AuditError>(c.verifier_key),
    {
        match config {
            Some(c) => Ok(c.verifier_key),
            None => Err(AuditError::NotInitialized),
        }
    }

    /// The contract version.
    pub fn version() -> (v: u32)
        ensures
            v == 2,
    {
        2
    }
}

/// Law: submitting one attested proof on its own, or as the one record of
/// a proofs blob, comes to the same: both succeed exactly when a
/// configuration and a threshold are stored, and then give the same
/// submission (result, signature check and event); otherwise both are
/// refused.
#[verifier::spinoff_prover]
#[verifier::rlimit(40)]
pub proof fn lemma_single_and_blob_submission_agree(
    config: Option<AuditConfig>,
    threshold: Option<u64>,
    entity: Seq<u8>,
    entity_id: Seq<u8>,
    asset_code: Seq<u8>,
    commitment: Seq<u8>,
    result: u8,
    signature: Seq<u8>,
    timestamp: u64,
    single: Result<ProofSubmission, AuditError>,
    batch: Result<MultiSubmission, AuditError>,
)
    requires
        asset_code.len() == 4,
        commitment.len() == 32,
        signature.len() == 64,
        single_submission_outcome(
            config,
            threshold,
            entity,
            entity_id,
            asset_code,
            commitment,
            result as u32,
            signature,
            timestamp,
            single,
        ),
        blob_submission_outcome(
            config,
            entity,
            entity_id,
            one_record_blob(asset_code, commitment, result, signature),
            seq![threshold],
            timestamp,
            batch,
        ),
    ensures
        config is Some && threshold is Some ==> {
            &&& single matches Ok(s) && batch matches Ok(m) && {
                &&& !m.missing_threshold
                &&& m.outcomes@.len() == 1
                &&& m.all_passed == s.passed
                &&& is_submission(
                    s,
                    config->Some_0.verifier_key@,
                    entity,
                    entity_id,
                    asset_code,
                    commitment,
                    result,
                    signature,
                    threshold->Some_0,
                    timestamp,
                )
                &&& is_submission(
                    m.outcomes@[0],
                    config->Some_0.verifier_key@,
                    entity,
                    entity_id,
                    asset_code,
                    commitment,
                    result,
                    signature,
                    threshold->Some_0,
                    timestamp,
                )
            }
        },
        !(config is Some && threshold is Some) ==> single is Err && (batch is Err
            || batch->Ok_0.missing_threshold),
{
    lemma_one_record_blob_layout(asset_code, commitment, result, signature);
    assert((result as u32 % 256) as u8 == result) by (bit_vector);
    if config is Some && threshold is Some {
        let m = batch->Ok_0;
        if m.outcomes@.len() == 0 {
            assert(seq![threshold][0] is None);
        }
        assert(m.outcomes@.len() == 1);
    }
}

/// The one-record blob is well formed, announces one record, and that
/// record holds the given fields.
proof fn lemma_one_record_blob_layout(asset_code: Seq<u8>, commitment: Seq<u8>, result: u8, signature: Seq<u8>)
    requires
        asset_code.len() == 4,
        commitment.len() == 32,
        signature.len() == 64,
    ensures
        blob_error(one_record_blob(asset_code, commitment, result, signature)) is None,
        blob_count(one_record_blob(asset_code, commitment, result, signature)) == 1,
        blob_record_at(one_record_blob(asset_code, commitment, result, signature), 0) == (
            asset_code,
            commitment,
            result,
            signature,
        ),
{
    reveal(one_record_blob);
    let blob = one_record_blob(asset_code, commitment, result, signature);
    lemma_le_u32_of_u32_le(1);
    assert(blob.len() == 112);
    assert(blob[0] == u32_le(1)[0] && blob[1] == u32_le(1)[1] && blob[2] == u32_le(1)[2]
        && blob[3] == u32_le(1)[3]);
    assert(le_u32(blob) == le_u32(u32_le(1)));
    assert(blob.subrange(4, 8) =~= asset_code);
    assert(blob.subrange(8, 40) =~= commitment);
    assert(blob[40] == result);
    assert(blob.subrange(44, 108) =~= signature);
}

/// Law: a proofs blob is refused only for being shorter than its count, for
/// a length other than `4 + 108 * count`, or for a count whose record bytes
/// overflow 32 bits; every other blob, whatever its count, is accepted with
/// that many records.
pub proof fn lemma_well_sized_blob_is_accepted(blob: Seq<u8>)
    requires
        blob.len() >= 4,
        blob.len() == 4 + 108 * le_u32(blob),
        108 * le_u32(blob) <= u32::MAX,
    ensures
        blob_error(blob) is None,
        blob_count(blob) == (blob.len() - 4) / 108,
{
}

/// Law: the ways a proofs blob is refused, each stated over its bytes.
pub proof fn lemma_blob_refusals(blob: Seq<u8>)
    ensures
        blob.len() < 4 <==> blob_error(blob) == Some(AuditError::BlobTooShort),
        blob.len() >= 4 && 108 * le_u32(blob) > u32::MAX <==> blob_error(blob) == Some(
            AuditError::CountOverflow,
        ),
        blob.len() >= 4 && 108 * le_u32(blob) <= u32::MAX && blob.len() != 4 + 108 * le_u32(blob)
            <==> blob_error(blob) == Some(AuditError::BlobLengthMismatch),
{
}

/// The fields `(asset_code, commitment, result, signature)` of one record.
pub type RecordFields = (Seq<u8>, Seq<u8>, u8, Seq<u8>);

/// Whether the fields have the sizes of a record's fields.
pub open spec fn record_fields_sized(f: RecordFields) -> bool {
    f.0.len() == 4 && f.1.len() == 32 && f.3.len() == 64
}

/// The 108 bytes of a record: `asset_code | commitment | result | 3 zero
/// bytes | signature | 4 zero bytes`.
pub open spec fn record_bytes(f: RecordFields) -> Seq<u8> {
    f.0 + f.1 + seq![f.2, 0u8, 0u8, 0u8] + f.3 + seq![0u8, 0u8, 0u8, 0u8]
}

/// The records written one after another.
pub open spec fn records_bytes(rs: Seq<RecordFields>) -> Seq<u8>
    decreases rs.len(),
{
    if rs.len() == 0 {
        Seq::empty()
    } else {
        records_bytes(rs.drop_last()) + record_bytes(rs.last())
    }
}

proof fn lemma_records_bytes_layout(rs: Seq<RecordFields>)
    requires
        forall|i: int| 0 <= i < rs.len() ==> record_fields_sized(#[trigger] rs[i]),
    ensures
        records_bytes(rs).len() == 108 * rs.len(),
        forall|i: int| 0 <= i < rs.len() ==> records_bytes(rs).subrange(108 * i, 108 * i + 108)
            == record_bytes(#[trigger] rs[i]),
    decreases rs.len(),
{
    if rs.len() > 0 {
        let init = rs.drop_last();
        lemma_records_bytes_layout(init);
        let whole = records_bytes(rs);
        let n = rs.len() - 1;
        assert(record_bytes(rs.last()).len() == 108);
        assert forall|i: int| 0 <= i < rs.len() implies whole.subrange(108 * i, 108 * i + 108)
            == record_bytes(#[trigger] rs[i]) by {
            if i < n {
                assert(init[i] == rs[i]);
                assert(108 * i + 108 <= 108 * n) by (nonlinear_arith)
                    requires
                        i < n;
                assert(whole.subrange(108 * i, 108 * i + 108) =~= records_bytes(init).subrange(
                    108 * i,
                    108 * i + 108,
                ));
            } else {
                assert(whole.subrange(108 * i, 108 * i + 108) =~= record_bytes(rs.last()));
            }
        }
    }
}

/// The proofs blob that announces the records `rs` and holds them.
pub open spec fn blob_of_records(rs: Seq<RecordFields>) -> Seq<u8> {
    u32_le(rs.len() as u32) + records_bytes(rs)
}

/// Law: every blob built from well-formed records, as many as fit in a
/// 32-bit length, is accepted, announces that many records, and reads back
/// each record's fields at its place.
pub proof fn lemma_blob_of_records_reads_back(rs: Seq<RecordFields>)
    requires
        forall|i: int| 0 <= i < rs.len() ==> record_fields_sized(#[trigger] rs[i]),
        108 * rs.len() <= u32::MAX,
    ensures
        blob_error(blob_of_records(rs)) is None,
        blob_count(blob_of_records(rs)) == rs.len(),
        forall|i: int| 0 <= i < rs.len() ==> blob_record_at(blob_of_records(rs), i) == #[trigger] rs[i],
{
    let blob = blob_of_records(rs);
    let body = records_bytes(rs);
    lemma_records_bytes_layout(rs);
    let n = rs.len() as u32;
    lemma_le_u32_of_u32_le(n);
    assert(blob[0] == u32_le(n)[0] && blob[1] == u32_le(n)[1] && blob[2] == u32_le(n)[2]
        && blob[3] == u32_le(n)[3]);
    assert(le_u32(blob) == le_u32(u32_le(n)));
    assert(blob_count(blob) == rs.len());
    assert forall|i: int| 0 <= i < rs.len() implies blob_record_at(blob, i) == #[trigger] rs[i] by {
        let f = rs[i];
        let base = 4 + i * 108;
        let rec = body.subrange(108 * i, 108 * i + 108);
        assert(rec == record_bytes(f));
        assert(108 * i + 108 <= 108 * rs.len()) by (nonlinear_arith)
            requires
                0 <= i < rs.len();
        assert(i * 108 == 108 * i);
        assert(blob.subrange(base, base + 4) =~= rec.subrange(0, 4));
        assert(rec.subrange(0, 4) =~= f.0);
        assert(blob.subrange(base + 4, base + 36) =~= rec.subrange(4, 36));
        assert(rec.subrange(4, 36) =~= f.1);
        assert(blob[base + 36] == rec[36]);
        assert(rec[36] == f.2);
        assert(blob.subrange(base + 40, base + 104) =~= rec.subrange(40, 104));
        assert(rec.subrange(40, 104) =~= f.3);
    }
}

}
