//! Umbra: confidential audit and escrow logic with Pedersen commitments,
//! Bulletproofs range proofs and signed verifier attestations.

pub mod encoding;
pub mod commitment;
mod backend;
pub mod range_proof;
pub mod range_proof_verify;
pub mod address;
pub mod proof_verifier;
pub mod audit;
pub mod commitments;
pub mod dispute;
pub mod escrow;
