//! The Umbra Escrow contract's entry points: initialization, verifier-key
//! rotation and the queries of the configuration, and the escrow and
//! dispute operations of [`crate::commitments`] and [`crate::dispute`];
//! the two release paths read the configured verifier key first.
use vstd::prelude::*;

use crate::address::Address;
use crate::commitments::{
    approve_multisig, cancel_escrow, cancel_outcome, create_escrow, creation_outcome, get_escrow,
    multisig_approval_outcome, next_escrow_id, next_id_of, oracle_release_outcome,
    release_via_oracle, Cancellation, EscrowCreation, EscrowError, EscrowRecord, MultiSigApproval,
    OracleRelease, ReleaseCondition,
};
use crate::dispute::{disclosure_outcome, get_arbitrator, request_disclosure, Disclosure};

verus! {

/// The contract's instance configuration, present once initialized.
#[derive(Debug)]
pub struct EscrowConfig {
    pub admin: Address,
    /// Ed25519 public key of the verifier that attests releases.
    pub verifier_key: [u8; 32],
}

/// What initialization stores: the configuration and the arbitrator.
#[derive(Debug)]
pub struct EscrowSetup {
    pub config: EscrowConfig,
    pub arbitrator: Address,
}

/// The Umbra Escrow contract.
pub struct UmbraEscrow;

impl UmbraEscrow {
    /// Initializes the contract with its admin, the dispute arbitrator and
    /// the verifier key; refused once initialized.
    pub fn init(current: &Option<EscrowConfig>, admin: Address, arbitrator: Address, verifier_key: [u8; 32]) -> (res:
        Result<EscrowSetup, EscrowError>)
        ensures
            current is Some ==> res == Err::<EscrowSetup, EscrowError>(EscrowError::AlreadyInitialized),
            current is None ==> (res matches Ok(s) && s.config.admin == admin && s.config.verifier_key
                == verifier_key && s.arbitrator == arbitrator),
    {
        if current.is_some() {
            return Err(EscrowError::AlreadyInitialized);
        }
        Ok(EscrowSetup { config: EscrowConfig { admin, verifier_key }, arbitrator })
    }

    /// Creates an escrow holding only the commitment to its amount; see
    /// [`create_escrow`].
    pub fn create_escrow(
        next_id: Option<u64>,
        buyer: Address,
        supplier: Address,
        commitment: [u8; 32],
        condition: ReleaseCondition,
        created_at: u64,
    ) -> (res: Result<EscrowCreation, EscrowError>)
        ensures
            creation_outcome(next_id, buyer, supplier, commitment, condition, created_at, res),
    {
        create_escrow(next_id, buyer, supplier, commitment, condition, created_at)
    }

    /// Releases an escrow on the delivery oracle's attestation, checked
    /// against the configured verifier key.
    pub fn release_oracle(
        config: &Option<EscrowConfig>,
        escrow_id: u64,
        stored: Option<EscrowRecord>,
        signature: [u8; 64],
    ) -> (res: Result<OracleRelease, EscrowError>)
        ensures
            config is None ==> res == Err::<OracleRelease, EscrowError>(EscrowError::NotInitialized),
            config matches Some(c) ==> oracle_release_outcome(
                escrow_id,
                stored,
                signature@,
                c.verifier_key@,
                res,
            ),
    {
        match config {
            Some(c) => release_via_oracle(escrow_id, stored, signature, c.verifier_key),
            None => Err(EscrowError::NotInitialized),
        }
    }

    /// Records a multi-sig approval, checked against the configured
    /// verifier key; `approved[i]` tells whether signer `i` had approved.
    pub fn approve_multisig(
        config: &Option<EscrowConfig>,
        escrow_id: u64,
        approver: &Address,
        stored: Option<EscrowRecord>,
        approved: &Vec<bool>,
        signature: [u8; 64],
    ) -> (res: Result<MultiSigApproval, EscrowError>)
        requires
            stored matches Some(r) && r.condition matches ReleaseCondition::MultiSig(p) ==> approved@.len()
                == p.signers@.len(),
        ensures
            config is None ==> res == Err::<MultiSigApproval, EscrowError>(EscrowError::NotInitialized),
            config matches Some(c) ==> multisig_approval_outcome(
                escrow_id,
                approver@,
                stored,
                approved@,
                signature@,
                c.verifier_key@,
                res,
            ),
    {
        match config {
            Some(c) => approve_multisig(escrow_id, approver, stored, approved, signature, c.verifier_key),
            None => Err(EscrowError::NotInitialized),
        }
    }

    /// Cancels an active escrow; the buyer must authorize.
    pub fn cancel_escrow(escrow_id: u64, stored: Option<EscrowRecord>) -> (res: Result<
        Cancellation,
        EscrowError,
    >)
        ensures
            cancel_outcome(escrow_id, stored, res),
    {
        cancel_escrow(escrow_id, stored)
    }

    /// Discloses the committed value of the one escrow `escrow_id`, on
    /// behalf of the stored arbitrator; see [`request_disclosure`].
    pub fn request_disclosure(
        escrow_id: u64,
        arbitrator: Option<Address>,
        stored: Option<EscrowRecord>,
        value: u64,
        blinding_bytes: [u8; 32],
    ) -> (res: Result<Disclosure, EscrowError>)
        ensures
            disclosure_outcome(escrow_id, arbitrator, stored, value, blinding_bytes@, res),
    {
        request_disclosure(escrow_id, arbitrator, stored, value, blinding_bytes)
    }

    /// Rotates the verifier key; the result keeps the admin, who must
    /// authorize the change.
    pub fn set_verifier_key(config: Option<EscrowConfig>, verifier_key: [u8; 32]) -> (res: Result<
        EscrowConfig,
        EscrowError,
    >)
        ensures
            config is None ==> res == Err::<EscrowConfig, EscrowError>(EscrowError::NotInitialized),
            config matches Some(old_c) ==> (res matches Ok(c) && c.admin == old_c.admin
                && c.verifier_key == verifier_key),
    {
        match config {
            Some(c) => Ok(EscrowConfig { admin: c.admin, verifier_key }),
            None => Err(EscrowError::NotInitialized),
        }
    }

    /// The stored record of an escrow, or `NotFound`.
    pub fn get_escrow(stored: Option<EscrowRecord>) -> (res: Result<EscrowRecord, EscrowError>)
        ensures
            match stored {
                None => res == Err::<EscrowRecord, EscrowError>(EscrowError::NotFound),
                Some(r) => res == Ok::<EscrowRecord, EscrowError>(r),
            },
    {
        get_escrow(stored)
    }

    /// The next escrow id that will be assigned, given the stored counter.
    pub fn next_escrow_id(stored: Option<u64>) -> (id: u64)
        ensures
            id == next_id_of(stored),
    {
        next_escrow_id(stored)
    }

    /// The admin address.
    pub fn get_admin(config: &Option<EscrowConfig>) -> (res: Result<&Address, EscrowError>)
        ensures
            config is None ==> res == Err::<&Address, EscrowError>(EscrowError::NotInitialized),
            config matches Some(c) ==> (res matches Ok(a) && *a == c.admin),
    {
        match config {
            Some(c) => Ok(&c.admin),
            None => Err(EscrowError::NotInitialized),
        }
    }

    /// The designated arbitrator, given the stored value.
    pub fn get_arbitrator(stored: Option<Address>) -> (res: Result<Address, EscrowError>)
        ensures
            match stored {
                None => res == Err::<Address, EscrowError>(EscrowError::ArbitratorNotSet),
                Some(a) => res == Ok::<Address, EscrowError>(a),
            },
    {
        get_arbitrator(stored)
    }

    /// The verifier's Ed25519 public key.
    pub fn get_verifier_key(config: &Option<EscrowConfig>) -> (res: Result<[u8; 32], EscrowError>)
        ensures
            config is None ==> res == Err::<[u8; 32], EscrowError>(EscrowError::NotInitialized),
            config matches Some(c) ==> res == Ok::<[u8; 32], EscrowError>(c.verifier_key),
    {
        match config {
            Some(c) => Ok(c.verifier_key),
            None => Err(EscrowError::NotInitialized),
        }
    }

    /// The contract version.
    pub fn version() -> (v: u32)
        ensures
            v == 1,
    {
        1
    }
}

}
