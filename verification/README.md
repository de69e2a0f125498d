# umbra

Confidential audit and escrow logic for two Soroban contracts, written in
Verus. The library's own functions carry `requires`/`ensures` contracts
that Verus proves; the few calls into `bulletproofs` and
`curve25519-dalek-ng` sit behind trusted wrappers whose contracts are
believed, not proved, and say only what those crates' sources show.

- **Umbra Audit**: a regulator-run threshold registry; companies submit
  verifier-attested results of range proofs over Pedersen commitments to
  their balances, one asset or many at once.
- **Umbra Escrow**: escrows whose amounts are held only as Pedersen
  commitments, released by a delivery oracle or by M-of-N signers, with an
  arbitrator who may have the amount of one named escrow disclosed.

## Layout

- `src/` — the verified library.
  - `commitment`, `range_proof`, `range_proof_verify`: Pedersen
    commitments and Bulletproofs range proofs. The group arithmetic and the
    proof system are called in `curve25519-dalek-ng` and `bulletproofs`
    behind trusted wrappers (`backend` and `commitment`), whose contracts
    state what those crates' sources show.
  - `encoding`, `address`: little-endian encodings and byte helpers;
    addresses held as their strkey bytes.
  - `proof_verifier`, `audit`: attestation messages, proof-blob parsing and
    the audit contract's decisions.
  - `commitments`, `dispute`, `escrow`: the escrow lifecycle, multi-sig
    approvals and scoped disclosure.
- `app/` — the Soroban contracts themselves. Each entry point reads the
  storage entries an operation needs, calls the library, and performs what
  the library hands back: authorizations, the host's Ed25519 checks,
  storage writes and events.
- `tests/` — tests of the library, run against the real outside crates.

The contracts' state lives in ledger storage, so each library operation
takes the stored values it reads as arguments and returns the new values
to store; the laws of the library (that settled escrows are final, that a
signer cannot approve twice, that a bundle unpacks to what was packed, and
so on) are proof functions beside the operations they speak of.
