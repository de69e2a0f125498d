//! Scoped arbitration disclosure: the designated arbitrator may have the
//! committed amount of one named escrow disclosed, and only once the
//! disclosed value and blinding factor are shown to open that escrow's
//! stored commitment.
use vstd::prelude::*;

use crate::address::Address;
use crate::commitment::{commitment_of, opens, Commitment};
use crate::commitments::{EscrowError, EscrowRecord};

verus! {

/// Storage keys specific to the dispute module.
#[derive(Clone, Copy, Debug, PartialEq, Eq, Structural)]
pub enum DisputeKey {
    /// The designated arbitrator address.
    Arbitrator,
}

/// Emitted when the arbitrator has a value disclosed. It reveals `value`
/// for `escrow_id` only.
#[derive(Debug)]
pub struct DisputeDisclosureEvent {
    pub escrow_id: u64,
    pub arbitrator: Address,
    pub value: u64,
    pub commitment: [u8; 32],
}

/// A verified disclosure: the arbitrator who must authorize it, the
/// escrow's record (unchanged) and the disclosure event.
#[derive(Debug)]
pub struct Disclosure {
    pub arbitrator: Address,
    pub record: EscrowRecord,
    pub event: DisputeDisclosureEvent,
}

/// What a disclosure request for `escrow_id` answers, given the stored
/// arbitrator and the stored record of that escrow.
pub open spec fn disclosure_outcome(
    escrow_id: u64,
    arbitrator: Option<Address>,
    stored: Option<EscrowRecord>,
    value: u64,
    blinding: Seq<u8>,
    res: Result<Disclosure, EscrowError>,
) -> bool {
    match arbitrator {
        None => res == Err::<Disclosure, EscrowError>(EscrowError::ArbitratorNotSet),
        Some(a) => match stored {
            None => res == Err::<Disclosure, EscrowError>(EscrowError::NotFound),
            Some(r) => if !opens(r.commitment@, value, blinding) {
                res == Err::<Disclosure, EscrowError>(EscrowError::OpeningMismatch)
            } else {
                res matches Ok(d) && {
                    &&& d.arbitrator@ == a@
                    &&& d.record == r
                    &&& d.event.escrow_id == escrow_id
                    &&& d.event.arbitrator@ == a@
                    &&& d.event.value == value
                    &&& d.event.commitment == r.commitment
                }
            },
        },
    }
}

/// The designated arbitrator, given the stored value.
pub fn get_arbitrator(stored: Option<Address>) -> (res: Result<Address, EscrowError>)
    ensures
        match stored {
            None => res == Err::<Address, EscrowError>(EscrowError::ArbitratorNotSet),
            Some(a) => res == Ok::<Address, EscrowError>(a),
        },
{
    match stored {
        Some(a) => Ok(a),
        None => Err(EscrowError::ArbitratorNotSet),
    }
}

/// Whether `value` and `blinding_bytes` open `commitment`: recomputes the
/// Pedersen commitment and compares.
pub fn verify_commitment_opening(commitment: &[u8; 32], value: u64, blinding_bytes: &[u8; 32]) -> (ok:
    bool)
    ensures
        ok == opens(commitment@, value, blinding_bytes@),
{
    match Commitment::from_bytes(commitment) {
        Some(c) => c.open(value, *blinding_bytes),
        None => false,
    }
}

/// Discloses the committed value of the escrow `escrow_id` whose stored
/// record is `stored`, on behalf of the stored arbitrator. Only that
/// record is read.
pub fn request_disclosure(
    escrow_id: u64,
    arbitrator: Option<Address>,
    stored: Option<EscrowRecord>,
    value: u64,
    blinding_bytes: [u8; 32],
) -> (res: Result<Disclosure, EscrowError>)
    ensures
        disclosure_outcome(escrow_id, arbitrator, stored, value, blinding_bytes@, res),
{
    let arbitrator = get_arbitrator(arbitrator)?;
    let record = match stored {
        Some(r) => r,
        None => return Err(EscrowError::NotFound),
    };
    if !verify_commitment_opening(&record.commitment, value, &blinding_bytes) {
        return Err(EscrowError::OpeningMismatch);
    }
    let event = DisputeDisclosureEvent {
        escrow_id,
        arbitrator: arbitrator.clone(),
        value,
        commitment: record.commitment,
    };
    Ok(Disclosure { arbitrator, record, event })
}


/// Law: the opening a commitment was made from is accepted, so the
/// arbitrator's disclosure of an escrow committed to `value` with
/// `blinding` succeeds and leaves its record as it was.
pub proof fn lemma_true_opening_is_disclosed(
    escrow_id: u64,
    arbitrator: Address,
    r: EscrowRecord,
    value: u64,
    blinding: Seq<u8>,
    res: Result<Disclosure, EscrowError>,
)
    requires
        r.commitment@ == commitment_of(value, blinding),
        disclosure_outcome(escrow_id, Some(arbitrator), Some(r), value, blinding, res),
    ensures
        res matches Ok(d) && d.record == r && d.event.value == value && d.event.escrow_id == escrow_id,
{
}

}
