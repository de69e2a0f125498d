//! Escrow records and their release logic.
//!
//! Escrow amounts are held only as 32-byte Pedersen commitments; no amount
//! or blinding factor appears in a record, an event or a result. An escrow
//! is released by a delivery oracle or by M-of-N signer approvals, each
//! backed by a verifier's Ed25519 attestation over
//! `"umbra-escrow-release-v1" | escrow_id (8, LE) | commitment (32) | 0x01`.
//!
//! Each operation takes the stored values it reads and returns what is to
//! be written, the address whose authorization it needs, the signature
//! check the host must accept, and the event to publish.
use vstd::prelude::*;

use crate::address::Address;
use crate::encoding::{push_all, push_u64_le, u64_le};
use crate::proof_verifier::{checks, SignatureCheck};

verus! {

/// The ASCII domain prefix `"umbra-escrow-release-v1"` of a release
/// attestation.
pub const RELEASE_ATTESTATION_DOMAIN: [u8; 23] = [
    0x75, 0x6d, 0x62, 0x72, 0x61, 0x2d, 0x65, 0x73, 0x63, 0x72, 0x6f, 0x77, 0x2d, 0x72, 0x65,
    0x6c, 0x65, 0x61, 0x73, 0x65, 0x2d, 0x76, 0x31,
];

/// Parameters for the MultiSig release condition.
#[derive(Debug)]
pub struct MultiSigParams {
    /// Number of approvals required (M-of-N).
    pub required: u32,
    /// The valid signers (N addresses).
    pub signers: Vec<Address>,
}

/// The two release conditions.
#[derive(Debug)]
pub enum ReleaseCondition {
    /// A single designated delivery oracle must authorize the release.
    DeliveryOracle(Address),
    /// M-of-N multi-signature approval.
    MultiSig(MultiSigParams),
}

/// Escrow status lifecycle.
#[derive(Clone, Copy, Debug, PartialEq, Eq, Structural)]
pub enum EscrowStatus {
    /// Created and funded, awaiting release or cancellation.
    Active,
    /// Released to the supplier.
    Released,
    /// Cancelled; funds returned to the buyer.
    Cancelled,
}

/// A stored escrow. The amount is never held, only its commitment.
#[derive(Debug)]
pub struct EscrowRecord {
    pub escrow_id: u64,
    pub buyer: Address,
    pub supplier: Address,
    /// 32-byte Pedersen commitment to the amount.
    pub commitment: [u8; 32],
    pub condition: ReleaseCondition,
    pub status: EscrowStatus,
    /// Ledger timestamp at creation.
    pub created_at: u64,
}

/// Which release path a condition or a release uses.
#[derive(Clone, Copy, Debug, PartialEq, Eq, Structural)]
pub enum ReleasePath {
    Oracle,
    MultiSig,
}

impl ReleasePath {
    /// The symbol text of the path: `"oracle"` or `"multisig"`.
    pub fn name(&self) -> (n: &'static str)
        ensures
            n@ == (match *self {
                ReleasePath::Oracle => "oracle"@,
                ReleasePath::MultiSig => "multisig"@,
            }),
    {
        match self {
            ReleasePath::Oracle => "oracle",
            ReleasePath::MultiSig => "multisig",
        }
    }
}

/// The release path of a condition.
pub open spec fn path_of(condition: ReleaseCondition) -> ReleasePath {
    match condition {
        ReleaseCondition::DeliveryOracle(_) => ReleasePath::Oracle,
        ReleaseCondition::MultiSig(_) => ReleasePath::MultiSig,
    }
}

/// Emitted when an escrow is created; holds the commitment, never the
/// amount.
#[derive(Debug)]
pub struct EscrowCreatedEvent {
    pub escrow_id: u64,
    pub buyer: Address,
    pub supplier: Address,
    pub commitment: [u8; 32],
    pub condition_type: ReleasePath,
}

/// Emitted when an escrow is released.
#[derive(Debug)]
pub struct EscrowReleasedEvent {
    pub escrow_id: u64,
    pub supplier: Address,
    pub commitment: [u8; 32],
    pub release_path: ReleasePath,
}

/// Emitted when an escrow is cancelled.
#[derive(Debug)]
pub struct EscrowCancelledEvent {
    pub escrow_id: u64,
    pub buyer: Address,
}

/// Errors that abort an escrow operation.
#[derive(Clone, Copy, Debug, PartialEq, Eq, Structural)]
pub enum EscrowError {
    AlreadyInitialized,
    NotInitialized,
    NotFound,
    NotActive,
    NotDeliveryOracle,
    NotMultiSig,
    NotASigner,
    AlreadyApproved,
    ArbitratorNotSet,
    OpeningMismatch,
    IdOverflow,
}

/// The abort text of each escrow error.
pub open spec fn escrow_error_text(e: EscrowError) -> Seq<char> {
    match e {
        EscrowError::AlreadyInitialized => "already initialized"@,
        EscrowError::NotInitialized => "not initialized"@,
        EscrowError::NotFound => "escrow not found"@,
        EscrowError::NotActive => "escrow not active"@,
        EscrowError::NotDeliveryOracle => "escrow condition is not DeliveryOracle"@,
        EscrowError::NotMultiSig => "escrow condition is not MultiSig"@,
        EscrowError::NotASigner => "approver is not in the signer list"@,
        EscrowError::AlreadyApproved => "approver already submitted"@,
        EscrowError::ArbitratorNotSet => "arbitrator not set"@,
        EscrowError::OpeningMismatch =>
            "commitment opening verification failed: value and blinding do not match stored commitment"@,
        EscrowError::IdOverflow => "attempt to add with overflow"@,
    }
}

impl EscrowError {
    /// The text with which the contract aborts on this error.
    pub fn message(&self) -> (m: &'static str)
        ensures
            m@ == escrow_error_text(*self),
    {
        match self {
            EscrowError::AlreadyInitialized => "already initialized",
            EscrowError::NotInitialized => "not initialized",
            EscrowError::NotFound => "escrow not found",
            EscrowError::NotActive => "escrow not active",
            EscrowError::NotDeliveryOracle => "escrow condition is not DeliveryOracle",
            EscrowError::NotMultiSig => "escrow condition is not MultiSig",
            EscrowError::NotASigner => "approver is not in the signer list",
            EscrowError::AlreadyApproved => "approver already submitted",
            EscrowError::ArbitratorNotSet => "arbitrator not set",
            EscrowError::OpeningMismatch =>
                "commitment opening verification failed: value and blinding do not match stored commitment",
            EscrowError::IdOverflow => "attempt to add with overflow",
        }
    }
}

/// The 64-byte release attestation message.
pub open spec fn release_attestation_message(escrow_id: u64, commitment: Seq<u8>) -> Seq<u8> {
    RELEASE_ATTESTATION_DOMAIN@ + u64_le(escrow_id) + commitment + seq![1u8]
}

/// The escrow id to assign next, given the stored counter.
pub open spec fn next_id_of(stored: Option<u64>) -> u64 {
    match stored {
        Some(n) => n,
        None => 0,
    }
}

/// `r` with its status replaced.
pub open spec fn with_status(r: EscrowRecord, status: EscrowStatus) -> EscrowRecord {
    EscrowRecord { status, ..r }
}

/// Whether `a` is one of `signers`.
pub open spec fn is_signer(signers: Seq<Address>, a: Seq<u8>) -> bool {
    exists|i: int| 0 <= i < signers.len() && (#[trigger] signers[i])@ == a
}

/// Whether `a` has already approved, `approved[i]` telling whether
/// `signers[i]` has.
pub open spec fn has_approved(signers: Seq<Address>, approved: Seq<bool>, a: Seq<u8>) -> bool {
    exists|i: int| 0 <= i < signers.len() && (#[trigger] signers[i])@ == a && approved[i]
}

/// Whether `signers[i]` is the first entry of its address in the list.
pub open spec fn first_entry(signers: Seq<Address>, i: int) -> bool {
    forall|j: int| 0 <= j < i ==> (#[trigger] signers[j])@ != signers[i]@
}

/// Whether the signer address `s` has approved once `a` approves too.
pub open spec fn address_approved(signers: Seq<Address>, approved: Seq<bool>, a: Seq<u8>, s: Seq<u8>) -> bool {
    s == a || has_approved(signers, approved, s)
}

/// How many distinct addresses among the first `n` signers have approved
/// once `a` approves too (each address counted at its first entry).
pub open spec fn approvals_upto(signers: Seq<Address>, approved: Seq<bool>, a: Seq<u8>, n: int) -> nat
    decreases n,
{
    if n <= 0 {
        0
    } else {
        approvals_upto(signers, approved, a, n - 1) + if first_entry(signers, n - 1) && address_approved(
            signers,
            approved,
            a,
            signers[n - 1]@,
        ) {
            1nat
        } else {
            0nat
        }
    }
}

/// How many distinct signer addresses have approved once `a` approves too.
pub open spec fn approval_count(signers: Seq<Address>, approved: Seq<bool>, a: Seq<u8>) -> nat {
    approvals_upto(signers, approved, a, signers.len() as int)
}

/// A created escrow: its id, its record, the next id to store, and the
/// creation event.
#[derive(Debug)]
pub struct EscrowCreation {
    pub escrow_id: u64,
    pub record: EscrowRecord,
    pub next_id: u64,
    pub event: EscrowCreatedEvent,
}

/// An oracle release: the oracle that must authorize it, the attestation
/// to check, the released record and its event.
#[derive(Debug)]
pub struct OracleRelease {
    pub oracle: Address,
    pub check: SignatureCheck,
    pub record: EscrowRecord,
    pub event: EscrowReleasedEvent,
}

/// A multi-sig approval: the approval to record, the attestation to
/// check, whether the approvals now suffice, the record (released if so)
/// and, if so, the release event.
#[derive(Debug)]
pub struct MultiSigApproval {
    /// The signer whose approval of the escrow is to be recorded.
    pub approval: Address,
    pub check: SignatureCheck,
    pub released: bool,
    pub record: EscrowRecord,
    pub event: Option<EscrowReleasedEvent>,
}

/// A cancellation: the buyer who must authorize it, the cancelled record
/// and its event.
#[derive(Debug)]
pub struct Cancellation {
    pub buyer: Address,
    pub record: EscrowRecord,
    pub event: EscrowCancelledEvent,
}

/// What creating an escrow answers, given the stored id counter: an
/// overflow of the counter is refused; otherwise the escrow takes the next
/// id, is active, and the counter moves one on.
pub open spec fn creation_outcome(
    next_id: Option<u64>,
    buyer: Address,
    supplier: Address,
    commitment: [u8; 32],
    condition: ReleaseCondition,
    created_at: u64,
    res: Result<EscrowCreation, EscrowError>,
) -> bool {
    if next_id_of(next_id) == u64::MAX {
        res == Err::<EscrowCreation, EscrowError>(EscrowError::IdOverflow)
    } else {
        res matches Ok(c) && {
            &&& c.escrow_id == next_id_of(next_id)
            &&& c.next_id == c.escrow_id + 1
            &&& c.record == EscrowRecord {
                escrow_id: c.escrow_id,
                buyer,
                supplier,
                commitment,
                condition,
                status: EscrowStatus::Active,
                created_at,
            }
            &&& c.event.escrow_id == c.escrow_id
            &&& c.event.buyer@ == buyer@
            &&& c.event.supplier@ == supplier@
            &&& c.event.commitment == commitment
            &&& c.event.condition_type == path_of(condition)
        }
    }
}

/// What releasing `stored` (the record of `escrow_id`) on an oracle
/// attestation answers, with verifier key `key`.
pub open spec fn oracle_release_outcome(
    escrow_id: u64,
    stored: Option<EscrowRecord>,
    signature: Seq<u8>,
    key: Seq<u8>,
    res: Result<OracleRelease, EscrowError>,
) -> bool {
    match stored {
        None => res == Err::<OracleRelease, EscrowError>(EscrowError::NotFound),
        Some(r) => if r.status != EscrowStatus::Active {
            res == Err::<OracleRelease, EscrowError>(EscrowError::NotActive)
        } else {
            match r.condition {
                ReleaseCondition::MultiSig(_) => res == Err::<OracleRelease, EscrowError>(
                    EscrowError::NotDeliveryOracle,
                ),
                ReleaseCondition::DeliveryOracle(o) => res matches Ok(x) && {
                    &&& x.oracle@ == o@
                    &&& checks(
                        x.check,
                        key,
                        release_attestation_message(escrow_id, r.commitment@),
                        signature,
                    )
                    &&& x.record == with_status(r, EscrowStatus::Released)
                    &&& x.event.escrow_id == escrow_id
                    &&& x.event.supplier@ == r.supplier@
                    &&& x.event.commitment == r.commitment
                    &&& x.event.release_path == ReleasePath::Oracle
                },
            }
        },
    }
}

/// What an approval by `approver` of `stored` (the record of `escrow_id`)
/// answers, `approved[i]` telling whether signer `i` had approved, with
/// verifier key `key`.
pub open spec fn multisig_approval_outcome(
    escrow_id: u64,
    approver: Seq<u8>,
    stored: Option<EscrowRecord>,
    approved: Seq<bool>,
    signature: Seq<u8>,
    key: Seq<u8>,
    res: Result<MultiSigApproval, EscrowError>,
) -> bool {
    match stored {
        None => res == Err::<MultiSigApproval, EscrowError>(EscrowError::NotFound),
        Some(r) => if r.status != EscrowStatus::Active {
            res == Err::<MultiSigApproval, EscrowError>(EscrowError::NotActive)
        } else {
            match r.condition {
                ReleaseCondition::DeliveryOracle(_) => res == Err::<MultiSigApproval, EscrowError>(
                    EscrowError::NotMultiSig,
                ),
                ReleaseCondition::MultiSig(p) => if !is_signer(p.signers@, approver) {
                    res == Err::<MultiSigApproval, EscrowError>(EscrowError::NotASigner)
                } else if has_approved(p.signers@, approved, approver) {
                    res == Err::<MultiSigApproval, EscrowError>(EscrowError::AlreadyApproved)
                } else {
                    res matches Ok(x) && {
                        &&& x.approval@ == approver
                        &&& checks(
                            x.check,
                            key,
                            release_attestation_message(escrow_id, r.commitment@),
                            signature,
                        )
                        &&& x.released == (approval_count(p.signers@, approved, approver)
                            >= p.required)
                        &&& x.record == if x.released {
                            with_status(r, EscrowStatus::Released)
                        } else {
                            r
                        }
                        &&& x.released ==> (x.event matches Some(e) && e.escrow_id == escrow_id
                            && e.supplier@ == r.supplier@ && e.commitment == r.commitment
                            && e.release_path == ReleasePath::MultiSig)
                        &&& !x.released ==> x.event is None
                    }
                },
            }
        },
    }
}

/// What cancelling `stored` (the record of `escrow_id`) answers.
pub open spec fn cancel_outcome(
    escrow_id: u64,
    stored: Option<EscrowRecord>,
    res: Result<Cancellation, EscrowError>,
) -> bool {
    match stored {
        None => res == Err::<Cancellation, EscrowError>(EscrowError::NotFound),
        Some(r) => if r.status != EscrowStatus::Active {
            res == Err::<Cancellation, EscrowError>(EscrowError::NotActive)
        } else {
            res matches Ok(x) && {
                &&& x.buyer@ == r.buyer@
                &&& x.record == with_status(r, EscrowStatus::Cancelled)
                &&& x.event.escrow_id == escrow_id
                &&& x.event.buyer@ == r.buyer@
            }
        },
    }
}

/// The release attestation to check for `escrow_id` and its commitment.
pub fn verify_release_attestation(
    verifier_key: &[u8; 32],
    escrow_id: u64,
    commitment: &[u8; 32],
    signature: &[u8; 64],
) -> (check: SignatureCheck)
    ensures
        checks(check, verifier_key@, release_attestation_message(escrow_id, commitment@), signature@),
        check.message@.len() == 64,
{
    let mut msg: Vec<u8> = Vec::new();
    push_all(&mut msg, &RELEASE_ATTESTATION_DOMAIN);
    push_u64_le(&mut msg, escrow_id);
    push_all(&mut msg, commitment);
    msg.push(1u8);
    assert(msg@ =~= release_attestation_message(escrow_id, commitment@));
    SignatureCheck { public_key: *verifier_key, message: msg, signature: *signature }
}

/// Creates an escrow holding only the commitment to its amount. `next_id`
/// is the stored id counter and `created_at` the ledger time; the buyer
/// must authorize.
pub fn create_escrow(
    next_id: Option<u64>,
    buyer: Address,
    supplier: Address,
    commitment_bytes: [u8; 32],
    condition: ReleaseCondition,
    created_at: u64,
) -> (res: Result<EscrowCreation, EscrowError>)
    ensures
        creation_outcome(next_id, buyer, supplier, commitment_bytes, condition, created_at, res),
{
    let escrow_id = match next_id {
        Some(n) => n,
        None => 0,
    };
    if escrow_id == u64::MAX {
        return Err(EscrowError::IdOverflow);
    }
    let condition_type = match &condition {
        ReleaseCondition::DeliveryOracle(_) => ReleasePath::Oracle,
        ReleaseCondition::MultiSig(_) => ReleasePath::MultiSig,
    };
    let event = EscrowCreatedEvent {
        escrow_id,
        buyer: buyer.clone(),
        supplier: supplier.clone(),
        commitment: commitment_bytes,
        condition_type,
    };
    let record = EscrowRecord {
        escrow_id,
        buyer,
        supplier,
        commitment: commitment_bytes,
        condition,
        status: EscrowStatus::Active,
        created_at,
    };
    Ok(EscrowCreation { escrow_id, record, next_id: escrow_id + 1, event })
}

/// Releases an escrow on the delivery oracle's attestation. `stored` is
/// the stored record for `escrow_id`.
pub fn release_via_oracle(
    escrow_id: u64,
    stored: Option<EscrowRecord>,
    signature: [u8; 64],
    verifier_key: [u8; 32],
) -> (res: Result<OracleRelease, EscrowError>)
    ensures
        oracle_release_outcome(escrow_id, stored, signature@, verifier_key@, res),
{
    let mut record = match stored {
        Some(r) => r,
        None => return Err(EscrowError::NotFound),
    };
    if record.status != EscrowStatus::Active {
        return Err(EscrowError::NotActive);
    }
    let oracle = match &record.condition {
        ReleaseCondition::DeliveryOracle(addr) => addr.clone(),
        ReleaseCondition::MultiSig(_) => return Err(EscrowError::NotDeliveryOracle),
    };
    let check = verify_release_attestation(&verifier_key, escrow_id, &record.commitment, &signature);
    let event = EscrowReleasedEvent {
        escrow_id,
        supplier: record.supplier.clone(),
        commitment: record.commitment,
        release_path: ReleasePath::Oracle,
    };
    record.status = EscrowStatus::Released;
    Ok(OracleRelease { oracle, check, record, event })
}

/// Whether `signers[i]` is the first entry of its address in the list.
fn is_first_entry(signers: &Vec<Address>, i: usize) -> (first: bool)
    requires
        i < signers@.len(),
    ensures
        first == first_entry(signers@, i as int),
{
    let mut j: usize = 0;
    while j < i
        invariant
            j <= i < signers@.len(),
            forall|m: int| 0 <= m < j ==> (#[trigger] signers@[m])@ != signers@[i as int]@,
        decreases i - j,
    {
        if signers[j].same_as(&signers[i]) {
            return false;
        }
        j = j + 1;
    }
    true
}

/// Whether the signer address `s` has approved once `a` approves too.
fn has_address_approved(signers: &Vec<Address>, approved: &Vec<bool>, a: &Address, s: &Address) -> (yes: bool)
    requires
        approved@.len() == signers@.len(),
    ensures
        yes == address_approved(signers@, approved@, a@, s@),
{
    if s.same_as(a) {
        return true;
    }
    let mut j: usize = 0;
    while j < signers.len()
        invariant
            j <= signers@.len(),
            approved@.len() == signers@.len(),
            s@ != a@,
            forall|m: int| 0 <= m < j ==> !((#[trigger] signers@[m])@ == s@ && approved@[m]),
        decreases signers@.len() - j,
    {
        if approved[j] && signers[j].same_as(s) {
            return true;
        }
        j = j + 1;
    }
    false
}

/// Records one multi-sig approval by `approver` and releases the escrow
/// once the approvals reach the required number. `approved[i]` tells
/// whether `signers[i]` had approved before this call; `approver` must
/// authorize.
pub fn approve_multisig(
    escrow_id: u64,
    approver: &Address,
    stored: Option<EscrowRecord>,
    approved: &Vec<bool>,
    signature: [u8; 64],
    verifier_key: [u8; 32],
) -> (res: Result<MultiSigApproval, EscrowError>)
    requires
        stored matches Some(r) && r.condition matches ReleaseCondition::MultiSig(p) ==> approved@.len()
            == p.signers@.len(),
    ensures
        multisig_approval_outcome(escrow_id, approver@, stored, approved@, signature@, verifier_key@, res),
{
    let mut record = match stored {
        Some(r) => r,
        None => return Err(EscrowError::NotFound),
    };
    if record.status != EscrowStatus::Active {
        return Err(EscrowError::NotActive);
    }
    let params = match &record.condition {
        ReleaseCondition::MultiSig(p) => p,
        ReleaseCondition::DeliveryOracle(_) => return Err(EscrowError::NotMultiSig),
    };
    let signers = &params.signers;
    let mut found = false;
    let mut already = false;
    let mut i: usize = 0;
    while i < signers.len()
        invariant
            i <= signers@.len(),
            approved@.len() == signers@.len(),
            found <==> exists|j: int| 0 <= j < i && (#[trigger] signers@[j])@ == approver@,
            already <==> exists|j: int|
                0 <= j < i && (#[trigger] signers@[j])@ == approver@ && approved@[j],
        decreases signers@.len() - i,
    {
        if signers[i].same_as(approver) {
            found = true;
            if approved[i] {
                already = true;
            }
        }
        i = i + 1;
    }
    if !found {
        return Err(EscrowError::NotASigner);
    }
    if already {
        return Err(EscrowError::AlreadyApproved);
    }
    let check = verify_release_attestation(&verifier_key, escrow_id, &record.commitment, &signature);
    let mut count: u64 = 0;
    let mut k: usize = 0;
    while k < signers.len()
        invariant
            k <= signers@.len(),
            approved@.len() == signers@.len(),
            count == approvals_upto(signers@, approved@, approver@, k as int),
            count <= k,
        decreases signers@.len() - k,
    {
        if is_first_entry(signers, k) && has_address_approved(signers, approved, approver, &signers[k]) {
            count = count + 1;
        }
        k = k + 1;
    }
    let released = count >= params.required as u64;
    if released {
        let event = EscrowReleasedEvent {
            escrow_id,
            supplier: record.supplier.clone(),
            commitment: record.commitment,
            release_path: ReleasePath::MultiSig,
        };
        record.status = EscrowStatus::Released;
        Ok(MultiSigApproval { approval: approver.clone(), check, released, record, event: Some(event) })
    } else {
        Ok(MultiSigApproval { approval: approver.clone(), check, released, record, event: None })
    }
}

/// Cancels an active escrow; the buyer must authorize.
pub fn cancel_escrow(escrow_id: u64, stored: Option<EscrowRecord>) -> (res: Result<
    Cancellation,
    EscrowError,
>)
    ensures
        cancel_outcome(escrow_id, stored, res),
{
    let mut record = match stored {
        Some(r) => r,
        None => return Err(EscrowError::NotFound),
    };
    if record.status != EscrowStatus::Active {
        return Err(EscrowError::NotActive);
    }
    let buyer = record.buyer.clone();
    let event = EscrowCancelledEvent { escrow_id, buyer: record.buyer.clone() };
    record.status = EscrowStatus::Cancelled;
    Ok(Cancellation { buyer, record, event })
}

/// The stored record, or `NotFound`.
pub fn get_escrow(stored: Option<EscrowRecord>) -> (res: Result<EscrowRecord, EscrowError>)
    ensures
        match stored {
            None => res == Err::<EscrowRecord, EscrowError>(EscrowError::NotFound),
            Some(r) => res == Ok::<EscrowRecord, EscrowError>(r),
        },
{
    match stored {
        Some(r) => Ok(r),
        None => Err(EscrowError::NotFound),
    }
}

/// The next escrow id that will be assigned, given the stored counter.
pub fn next_escrow_id(stored: Option<u64>) -> (id: u64)
    ensures
        id == next_id_of(stored),
{
    match stored {
        Some(n) => n,
        None => 0,
    }
}


/// The approval flags once `a` has approved: `signers[i]` has approved
/// afterwards when it had before or is `a`.
pub open spec fn approvals_after(signers: Seq<Address>, approved: Seq<bool>, a: Seq<u8>) -> Seq<bool> {
    Seq::new(approved.len(), |i: int| approved[i] || signers[i]@ == a)
}

/// Law: a released or cancelled escrow is final: a release, an approval
/// and a cancellation of it are all refused as not active.
pub proof fn lemma_settled_escrow_is_final(
    escrow_id: u64,
    r: EscrowRecord,
    approver: Seq<u8>,
    approved: Seq<bool>,
    signature: Seq<u8>,
    key: Seq<u8>,
    released: Result<OracleRelease, EscrowError>,
    approval: Result<MultiSigApproval, EscrowError>,
    cancelled: Result<Cancellation, EscrowError>,
)
    requires
        r.status != EscrowStatus::Active,
        oracle_release_outcome(escrow_id, Some(r), signature, key, released),
        multisig_approval_outcome(escrow_id, approver, Some(r), approved, signature, key, approval),
        cancel_outcome(escrow_id, Some(r), cancelled),
    ensures
        released == Err::<OracleRelease, EscrowError>(EscrowError::NotActive),
        approval == Err::<MultiSigApproval, EscrowError>(EscrowError::NotActive),
        cancelled == Err::<Cancellation, EscrowError>(EscrowError::NotActive),
{
}

/// Law: an escrow released by its oracle can no longer be cancelled, and
/// a cancelled escrow can no longer be cancelled again.
pub proof fn lemma_release_and_cancel_are_final(
    escrow_id: u64,
    r: EscrowRecord,
    signature: Seq<u8>,
    key: Seq<u8>,
    released: Result<OracleRelease, EscrowError>,
    cancel_after_release: Result<Cancellation, EscrowError>,
    cancelled: Result<Cancellation, EscrowError>,
    cancel_after_cancel: Result<Cancellation, EscrowError>,
)
    requires
        oracle_release_outcome(escrow_id, Some(r), signature, key, released),
        released is Ok ==> cancel_outcome(escrow_id, Some(released->Ok_0.record), cancel_after_release),
        cancel_outcome(escrow_id, Some(r), cancelled),
        cancelled is Ok ==> cancel_outcome(escrow_id, Some(cancelled->Ok_0.record), cancel_after_cancel),
    ensures
        released is Ok ==> released->Ok_0.record.status == EscrowStatus::Released
            && cancel_after_release == Err::<Cancellation, EscrowError>(EscrowError::NotActive),
        cancelled is Ok ==> cancelled->Ok_0.record.status == EscrowStatus::Cancelled
            && cancel_after_cancel == Err::<Cancellation, EscrowError>(EscrowError::NotActive),
{
}

/// Law: a signer cannot approve the same escrow twice: once its approval
/// is recorded (and the escrow still awaits approvals), a second approval
/// by it is refused.
pub proof fn lemma_no_double_approval(
    escrow_id: u64,
    r: EscrowRecord,
    approver: Seq<u8>,
    approved: Seq<bool>,
    signature: Seq<u8>,
    key: Seq<u8>,
    first: Result<MultiSigApproval, EscrowError>,
    second_signature: Seq<u8>,
    second: Result<MultiSigApproval, EscrowError>,
)
    requires
        r.condition is MultiSig,
        approved.len() == r.condition->MultiSig_0.signers@.len(),
        multisig_approval_outcome(escrow_id, approver, Some(r), approved, signature, key, first),
        first is Ok,
        !first->Ok_0.released,
        multisig_approval_outcome(
            escrow_id,
            approver,
            Some(first->Ok_0.record),
            approvals_after(r.condition->MultiSig_0.signers@, approved, approver),
            second_signature,
            key,
            second,
        ),
    ensures
        second == Err::<MultiSigApproval, EscrowError>(EscrowError::AlreadyApproved),
{
    let signers = r.condition->MultiSig_0.signers@;
    let i = choose|i: int| 0 <= i < signers.len() && (#[trigger] signers[i])@ == approver;
    assert(approvals_after(signers, approved, approver)[i]);
    assert(has_approved(signers, approvals_after(signers, approved, approver), approver));
}

/// Law: escrow ids are handed out one after another: two creations in a
/// row, the second reading the counter the first stored, take consecutive
/// ids.
pub proof fn lemma_escrow_ids_are_consecutive(
    next_id: Option<u64>,
    buyer: Address,
    supplier: Address,
    commitment: [u8; 32],
    condition: ReleaseCondition,
    created_at: u64,
    first: Result<EscrowCreation, EscrowError>,
    second_buyer: Address,
    second_supplier: Address,
    second_commitment: [u8; 32],
    second_condition: ReleaseCondition,
    second_created_at: u64,
    second: Result<EscrowCreation, EscrowError>,
)
    requires
        next_id_of(next_id) < u64::MAX - 1,
        creation_outcome(next_id, buyer, supplier, commitment, condition, created_at, first),
        first is Ok ==> creation_outcome(
            Some(first->Ok_0.next_id),
            second_buyer,
            second_supplier,
            second_commitment,
            second_condition,
            second_created_at,
            second,
        ),
    ensures
        first matches Ok(a) && a.escrow_id == next_id_of(next_id),
        second matches Ok(b) && b.escrow_id == first->Ok_0.escrow_id + 1,
{
}

/// Whether the escrows in `store` (records keyed by id) are exactly those
/// with an id below `next`.
pub open spec fn records_below(store: Map<u64, EscrowRecord>, next: u64) -> bool {
    forall|i: u64| #[trigger] store.dom().contains(i) <==> i < next
}

/// The stored record of `id` in `store`, if any.
pub open spec fn stored_record(store: Map<u64, EscrowRecord>, id: u64) -> Option<EscrowRecord> {
    if store.dom().contains(id) {
        Some(store[id])
    } else {
        None
    }
}

/// Law: escrow ids are never reused. When the stored escrows are exactly
/// those below the counter, a creation takes an id that no escrow has, the
/// counter strictly increases, and once the new record and counter are
/// stored the escrows are again exactly those below the counter.
pub proof fn lemma_creation_keeps_records_below_counter(
    store: Map<u64, EscrowRecord>,
    next_id: Option<u64>,
    buyer: Address,
    supplier: Address,
    commitment: [u8; 32],
    condition: ReleaseCondition,
    created_at: u64,
    res: Result<EscrowCreation, EscrowError>,
)
    requires
        records_below(store, next_id_of(next_id)),
        creation_outcome(next_id, buyer, supplier, commitment, condition, created_at, res),
        res is Ok,
    ensures
        res->Ok_0.escrow_id == next_id_of(next_id),
        !store.dom().contains(res->Ok_0.escrow_id),
        res->Ok_0.next_id > next_id_of(next_id),
        records_below(store.insert(res->Ok_0.escrow_id, res->Ok_0.record), res->Ok_0.next_id),
{
    let c = res->Ok_0;
    let after = store.insert(c.escrow_id, c.record);
    assert forall|i: u64| #[trigger] after.dom().contains(i) <==> i < c.next_id by {
        if i != c.escrow_id {
            assert(after.dom().contains(i) == store.dom().contains(i));
        }
    }
}

/// Law: releasing, approving and cancelling write back only the record of
/// an existing escrow, so the stored escrows stay exactly those below the
/// counter.
pub proof fn lemma_updates_keep_records_below_counter(
    store: Map<u64, EscrowRecord>,
    next: u64,
    escrow_id: u64,
    approver: Seq<u8>,
    approved: Seq<bool>,
    signature: Seq<u8>,
    key: Seq<u8>,
    released: Result<OracleRelease, EscrowError>,
    approval: Result<MultiSigApproval, EscrowError>,
    cancelled: Result<Cancellation, EscrowError>,
)
    requires
        records_below(store, next),
        oracle_release_outcome(escrow_id, stored_record(store, escrow_id), signature, key, released),
        multisig_approval_outcome(
            escrow_id,
            approver,
            stored_record(store, escrow_id),
            approved,
            signature,
            key,
            approval,
        ),
        cancel_outcome(escrow_id, stored_record(store, escrow_id), cancelled),
    ensures
        released matches Ok(x) ==> records_below(store.insert(escrow_id, x.record), next),
        approval matches Ok(x) ==> records_below(store.insert(escrow_id, x.record), next),
        cancelled matches Ok(x) ==> records_below(store.insert(escrow_id, x.record), next),
{
    if store.dom().contains(escrow_id) {
        assert forall|r: EscrowRecord, i: u64| #[trigger] store.insert(escrow_id, r).dom().contains(i)
            <==> i < next by {
            if i != escrow_id {
                assert(store.insert(escrow_id, r).dom().contains(i) == store.dom().contains(i));
            }
        }
    }
}

/// The signer addresses that have approved an escrow once `a` approves
/// too, wherever they stand in the signer list.
pub open spec fn approving_signers(signers: Seq<Address>, approved: Seq<bool>, a: Seq<u8>) -> Set<Seq<u8>> {
    Set::new(|s: Seq<u8>| is_signer(signers, s) && (s == a || has_approved(signers, approved, s)))
}

/// The approving addresses among the first `n` signers.
spec fn approving_among_first(signers: Seq<Address>, approved: Seq<bool>, a: Seq<u8>, n: int) -> Set<Seq<u8>> {
    Set::new(
        |s: Seq<u8>|
            exists|i: int| 0 <= i < n && (#[trigger] signers[i])@ == s && (s == a || has_approved(signers, approved, s)),
    )
}

proof fn lemma_approvals_upto_counts_addresses(signers: Seq<Address>, approved: Seq<bool>, a: Seq<u8>, n: int)
    requires
        0 <= n <= signers.len(),
    ensures
        approving_among_first(signers, approved, a, n).finite(),
        approvals_upto(signers, approved, a, n) == approving_among_first(signers, approved, a, n).len(),
    decreases n,
{
    let cur = approving_among_first(signers, approved, a, n);
    if n == 0 {
        assert(cur =~= Set::<Seq<u8>>::empty());
    } else {
        lemma_approvals_upto_counts_addresses(signers, approved, a, n - 1);
        let prev = approving_among_first(signers, approved, a, n - 1);
        let s = signers[n - 1]@;
        if address_approved(signers, approved, a, s) {
            assert(cur =~= prev.insert(s)) by {
                assert forall|x: Seq<u8>| cur.contains(x) implies prev.contains(x) || x == s by {
                    let i = choose|i: int| 0 <= i < n && (#[trigger] signers[i])@ == x && (x == a
                        || has_approved(signers, approved, x));
                    if i < n - 1 {
                        assert(prev.contains(x));
                    }
                }
                assert forall|x: Seq<u8>| prev.insert(s).contains(x) implies cur.contains(x) by {
                    if x == s {
                        assert(signers[n - 1]@ == x);
                    } else {
                        let i = choose|i: int| 0 <= i < n - 1 && (#[trigger] signers[i])@ == x && (x == a
                            || has_approved(signers, approved, x));
                        assert(signers[i]@ == x);
                    }
                }
            }
            if first_entry(signers, n - 1) {
                if prev.contains(s) {
                    let i = choose|i: int| 0 <= i < n - 1 && (#[trigger] signers[i])@ == s && (s == a
                        || has_approved(signers, approved, s));
                    assert(signers[i]@ != signers[n - 1]@);
                }
            } else {
                let j = choose|j: int| 0 <= j < n - 1 && (#[trigger] signers[j])@ == signers[n - 1]@;
                assert(signers[j]@ == s);
                assert(prev.contains(s));
            }
        } else {
            assert(cur =~= prev) by {
                assert forall|x: Seq<u8>| cur.contains(x) implies prev.contains(x) by {
                    let i = choose|i: int| 0 <= i < n && (#[trigger] signers[i])@ == x && (x == a
                        || has_approved(signers, approved, x));
                    if i == n - 1 {
                        assert(x == s);
                    }
                    assert(signers[i]@ == x);
                }
                assert forall|x: Seq<u8>| prev.contains(x) implies cur.contains(x) by {
                    let i = choose|i: int| 0 <= i < n - 1 && (#[trigger] signers[i])@ == x && (x == a
                        || has_approved(signers, approved, x));
                    assert(signers[i]@ == x);
                }
            }
        }
    }
}

/// Law: the approvals counted towards a multi-sig release are the number
/// of distinct signer addresses that have approved (the approver
/// included), wherever they stand in the signer list; so an approval
/// releases the escrow exactly when that many addresses reach the
/// required number.
pub proof fn lemma_approval_count_is_number_of_approving_signers(
    signers: Seq<Address>,
    approved: Seq<bool>,
    a: Seq<u8>,
)
    ensures
        approving_signers(signers, approved, a).finite(),
        approval_count(signers, approved, a) == approving_signers(signers, approved, a).len(),
{
    let n = signers.len() as int;
    lemma_approvals_upto_counts_addresses(signers, approved, a, n);
    let lhs = approving_among_first(signers, approved, a, n);
    let rhs = approving_signers(signers, approved, a);
    assert(lhs =~= rhs) by {
        assert forall|x: Seq<u8>| rhs.contains(x) implies lhs.contains(x) by {
            let i = choose|i: int| 0 <= i < signers.len() && (#[trigger] signers[i])@ == x;
            assert(signers[i]@ == x);
        }
        assert forall|x: Seq<u8>| lhs.contains(x) implies rhs.contains(x) by {
            let i = choose|i: int| 0 <= i < n && (#[trigger] signers[i])@ == x && (x == a
                || has_approved(signers, approved, x));
            assert(signers[i]@ == x);
        }
    }
}

/// Law: an approval by a signer releases the escrow exactly when the
/// number of distinct signer addresses that have approved, the approver
/// included, reaches the required number.
pub proof fn lemma_approval_releases_at_required_count(
    escrow_id: u64,
    approver: Seq<u8>,
    r: EscrowRecord,
    approved: Seq<bool>,
    signature: Seq<u8>,
    key: Seq<u8>,
    res: Result<MultiSigApproval, EscrowError>,
)
    requires
        r.condition is MultiSig,
        multisig_approval_outcome(escrow_id, approver, Some(r), approved, signature, key, res),
        res is Ok,
    ensures
        res->Ok_0.released == (approving_signers(r.condition->MultiSig_0.signers@, approved, approver).len()
            >= r.condition->MultiSig_0.required),
        res->Ok_0.released ==> res->Ok_0.record.status == EscrowStatus::Released,
        !res->Ok_0.released ==> res->Ok_0.record.status == r.status,
{
    lemma_approval_count_is_number_of_approving_signers(r.condition->MultiSig_0.signers@, approved, approver);
}

/// Law: the multi-sig approval and the oracle release of an escrow ask the
/// host to check the verifier's signature over the same 64-byte message:
/// the domain `"umbra-escrow-release-v1"`, the escrow id (8 bytes, little
/// endian), the stored commitment, and the result byte 0x01.
pub proof fn lemma_release_checks_sign_the_release_attestation(
    escrow_id: u64,
    approver: Seq<u8>,
    r: EscrowRecord,
    approved: Seq<bool>,
    signature: Seq<u8>,
    key: Seq<u8>,
    approval: Result<MultiSigApproval, EscrowError>,
    oracle_record: EscrowRecord,
    released: Result<OracleRelease, EscrowError>,
)
    requires
        multisig_approval_outcome(escrow_id, approver, Some(r), approved, signature, key, approval),
        oracle_release_outcome(escrow_id, Some(oracle_record), signature, key, released),
    ensures
        approval matches Ok(x) ==> {
            let m = x.check.message@;
            &&& m.len() == 64
            &&& m.subrange(0, 23) == RELEASE_ATTESTATION_DOMAIN@
            &&& m.subrange(23, 31) == u64_le(escrow_id)
            &&& m.subrange(31, 63) == r.commitment@
            &&& m[63] == 1u8
            &&& x.check.public_key@ == key
            &&& x.check.signature@ == signature
        },
        released matches Ok(x) ==> {
            let m = x.check.message@;
            &&& m.len() == 64
            &&& m.subrange(0, 23) == RELEASE_ATTESTATION_DOMAIN@
            &&& m.subrange(23, 31) == u64_le(escrow_id)
            &&& m.subrange(31, 63) == oracle_record.commitment@
            &&& m[63] == 1u8
            &&& x.check.public_key@ == key
            &&& x.check.signature@ == signature
        },
        approval is Ok && released is Ok && oracle_record.commitment == r.commitment
            ==> approval->Ok_0.check.message@ == released->Ok_0.check.message@,
{
    let omsg = release_attestation_message(escrow_id, oracle_record.commitment@);
    assert(omsg.subrange(0, 23) =~= RELEASE_ATTESTATION_DOMAIN@);
    assert(omsg.subrange(23, 31) =~= u64_le(escrow_id));
    assert(omsg.subrange(31, 63) =~= oracle_record.commitment@);
    let msg = release_attestation_message(escrow_id, r.commitment@);
    assert(msg.subrange(0, 23) =~= RELEASE_ATTESTATION_DOMAIN@);
    assert(msg.subrange(23, 31) =~= u64_le(escrow_id));
    assert(msg.subrange(31, 63) =~= r.commitment@);
}

/// Law: the creation event names the escrow's release condition: "oracle"
/// for a delivery-oracle escrow and "multisig" for a multi-sig one.
pub proof fn lemma_creation_event_names_the_condition(
    next_id: Option<u64>,
    buyer: Address,
    supplier: Address,
    commitment: [u8; 32],
    condition: ReleaseCondition,
    created_at: u64,
    res: Result<EscrowCreation, EscrowError>,
)
    requires
        creation_outcome(next_id, buyer, supplier, commitment, condition, created_at, res),
        res is Ok,
    ensures
        condition is DeliveryOracle ==> res->Ok_0.event.condition_type == ReleasePath::Oracle,
        condition is MultiSig ==> res->Ok_0.event.condition_type == ReleasePath::MultiSig,
        condition is DeliveryOracle ==> res->Ok_0.record.condition is DeliveryOracle,
{
}

}
