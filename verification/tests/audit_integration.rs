use ed25519_dalek::{Signer, SigningKey, Verifier, VerifyingKey, Signature};
use umbra::address::Address;
use umbra::audit::{parse_proofs_blob, AuditConfig, AuditError, ProofSubmission, UmbraAudit};
use umbra::proof_verifier::{verify_attestation, SignatureCheck, VerificationResult};

fn mock_keypair(seed: u8) -> ([u8; 32], [u8; 32]) {
    let secret = [seed; 32];
    let signing_key = SigningKey::from_bytes(&secret);
    let verifying_key: VerifyingKey = signing_key.verifying_key();
    (secret, verifying_key.to_bytes())
}

fn address(text: &str) -> Address {
    Address::from_strkey(text.as_bytes().to_vec())
}

/// The 32-byte identity of an entity that the verifier signs.
fn entity_id(seed: u8) -> [u8; 32] {
    [seed; 32]
}

fn sign_attestation(
    verifier_secret: &[u8; 32],
    entity: &[u8; 32],
    asset_code: &[u8; 4],
    threshold: u64,
    timestamp: u64,
    commitment: &[u8; 32],
    proof_result: u8,
) -> [u8; 64] {
    let mut msg = Vec::<u8>::new();
    msg.extend_from_slice(b"umbra-audit-v1");
    msg.extend_from_slice(entity);
    msg.extend_from_slice(asset_code);
    msg.extend_from_slice(&threshold.to_le_bytes());
    msg.extend_from_slice(&timestamp.to_le_bytes());
    msg.extend_from_slice(commitment);
    msg.push(proof_result);
    let signing_key = SigningKey::from_bytes(verifier_secret);
    signing_key.sign(&msg).to_bytes()
}

/// What the host does with a signature check: accept or abort.
fn host_accepts(check: &SignatureCheck) -> bool {
    let key = VerifyingKey::from_bytes(&check.public_key).unwrap();
    key.verify(&check.message, &Signature::from_bytes(&check.signature)).is_ok()
}

fn setup(regulator: &Address, verifier_key: [u8; 32]) -> Option<AuditConfig> {
    Some(UmbraAudit::init(&None, regulator.clone(), verifier_key).unwrap())
}

fn submit(
    config: &Option<AuditConfig>,
    threshold: u64,
    entity: &Address,
    entity_id: &[u8; 32],
    asset_code: [u8; 4],
    commitment: [u8; 32],
    proof_result: u32,
    signature: [u8; 64],
    timestamp: u64,
) -> ProofSubmission {
    UmbraAudit::submit_proof(
        config,
        Some(threshold),
        entity,
        entity_id,
        asset_code,
        commitment,
        proof_result,
        signature,
        timestamp,
    )
    .unwrap()
}

#[test]
fn test_init_sets_regulator_and_verifier_key() {
    let regulator = address("GREGULATOR");
    let (_, vk_bytes) = mock_keypair(1);
    let config = setup(&regulator, vk_bytes);

    assert_eq!(UmbraAudit::get_regulator(&config).unwrap().strkey(), regulator.strkey());
    assert_eq!(UmbraAudit::get_verifier_key(&config).unwrap(), vk_bytes);
}

#[test]
fn test_regulator_can_set_threshold() {
    let regulator = address("GREGULATOR");
    let (_, vk_bytes) = mock_keypair(1);
    let config = setup(&regulator, vk_bytes);

    let update = UmbraAudit::set_threshold(&config, *b"USDC", 1_000_000).unwrap();
    assert_eq!(update.regulator.strkey(), regulator.strkey());
    assert_eq!(&update.asset_code, b"USDC");
    assert_eq!(update.threshold, 1_000_000);
    let stored: Option<u64> = Some(update.threshold);
    let outcome = UmbraAudit::submit_proof(
        &config, stored, &address("GENTITY"), &entity_id(7), *b"USDC", [0; 32], 1, [0; 64], 0,
    )
    .unwrap();
    assert_eq!(outcome.event.threshold, 1_000_000u64);
}

#[test]
fn test_valid_proof_submission_returns_true() {
    let regulator = address("GREGULATOR");
    let entity = address("GENTITY");
    let id = entity_id(3);
    let (vk_secret, vk_bytes) = mock_keypair(42);
    let asset_code = *b"USDC";
    let threshold: u64 = 1_000_000;
    let timestamp: u64 = 1_700_000_000;
    let commitment = [0xab; 32];
    let config = setup(&regulator, vk_bytes);

    let sig = sign_attestation(&vk_secret, &id, &asset_code, threshold, timestamp, &commitment, 0x01);
    let result = submit(&config, threshold, &entity, &id, asset_code, commitment, 1, sig, timestamp);
    assert!(result.passed);
    assert!(host_accepts(&result.check));
}

#[test]
fn test_fail_attested_proof_returns_false() {
    let regulator = address("GREGULATOR");
    let entity = address("GENTITY");
    let id = entity_id(4);
    let (vk_secret, vk_bytes) = mock_keypair(43);
    let asset_code = *b"USDC";
    let threshold: u64 = 1_000_000;
    let timestamp: u64 = 1_700_000_001;
    let commitment = [0xcd; 32];
    let config = setup(&regulator, vk_bytes);

    let sig = sign_attestation(&vk_secret, &id, &asset_code, threshold, timestamp, &commitment, 0x00);
    let result = submit(&config, threshold, &entity, &id, asset_code, commitment, 0, sig, timestamp);
    assert!(!result.passed);
    assert!(host_accepts(&result.check));
}

#[test]
fn bad_signature_is_refused_by_the_host() {
    let regulator = address("GREGULATOR");
    let entity = address("GENTITY");
    let (_, vk_bytes) = mock_keypair(44);
    let config = setup(&regulator, vk_bytes);
    let result = submit(&config, 1_000_000, &entity, &entity_id(5), *b"USDC", [0xef; 32], 1, [0; 64], 1_700_000_002);
    assert!(!host_accepts(&result.check));
}

#[test]
fn test_event_contains_no_private_balance() {
    let regulator = address("GREGULATOR");
    let entity = address("GENTITY");
    let id = entity_id(6);
    let (vk_secret, vk_bytes) = mock_keypair(45);
    let asset_code = *b"USDC";
    let threshold: u64 = 500_000;
    let timestamp: u64 = 1_700_000_003;
    let commitment = [0x77; 32];
    let private_balance: u64 = 12_345_678;
    let config = setup(&regulator, vk_bytes);

    let sig = sign_attestation(&vk_secret, &id, &asset_code, threshold, timestamp, &commitment, 0x01);
    let result = submit(&config, threshold, &entity, &id, asset_code, commitment, 1, sig, timestamp);

    let event = &result.event;
    let mut data: Vec<u8> = Vec::new();
    data.extend_from_slice(event.entity.strkey());
    data.extend_from_slice(&event.asset_code);
    data.extend_from_slice(&event.threshold.to_le_bytes());
    data.extend_from_slice(&event.timestamp.to_le_bytes());
    data.extend_from_slice(&event.commitment);
    data.push(event.passed as u8);
    assert!(!data.is_empty(), "expected at least one event");

    let balance_le = private_balance.to_le_bytes();
    let balance_be = private_balance.to_be_bytes();
    let contains_le = data.windows(8).any(|w| w == balance_le);
    let contains_be = data.windows(8).any(|w| w == balance_be);
    assert!(
        !contains_le && !contains_be,
        "private balance found in emitted event — confidentiality regression!"
    );
    assert_eq!(event.commitment, commitment);
}

#[test]
fn submit_without_threshold_is_refused() {
    let config = setup(&address("GREGULATOR"), mock_keypair(46).1);
    let res = UmbraAudit::submit_proof(
        &config, None, &address("GENTITY"), &entity_id(1), *b"USDC", [1; 32], 1, [0; 64], 1_700_000_000,
    );
    assert_eq!(res.err(), Some(AuditError::NoThreshold));
    assert_eq!(AuditError::NoThreshold.message(), "no threshold set for asset");
}

#[test]
fn double_init_is_refused() {
    let config = setup(&address("GREGULATOR"), mock_keypair(1).1);
    let res = UmbraAudit::init(&config, address("GREGULATOR"), mock_keypair(1).1);
    assert_eq!(res.err(), Some(AuditError::AlreadyInitialized));
    assert_eq!(AuditError::AlreadyInitialized.message(), "already initialized");
}

#[test]
fn uninitialized_contract_is_refused() {
    let none: Option<AuditConfig> = None;
    assert_eq!(UmbraAudit::get_regulator(&none).err(), Some(AuditError::NotInitialized));
    assert_eq!(UmbraAudit::set_threshold(&none, *b"USDC", 5).err(), Some(AuditError::NotInitialized));
    let res = UmbraAudit::submit_proof(&none, Some(5), &address("G"), &entity_id(1), *b"USDC", [1; 32], 1, [0; 64], 0);
    assert_eq!(res.err(), Some(AuditError::NotInitialized));
}

fn blob_record(
    blob: &mut Vec<u8>,
    code: &[u8; 4],
    commitment: &[u8; 32],
    result: u8,
    sig: &[u8; 64],
) {
    blob.extend_from_slice(code);
    blob.extend_from_slice(commitment);
    blob.push(result);
    blob.extend_from_slice(&[0u8; 3]);
    blob.extend_from_slice(sig);
    blob.extend_from_slice(&[0u8; 4]);
}

#[test]
fn test_multi_asset_all_pass() {
    let regulator = address("GREGULATOR");
    let entity = address("GENTITY");
    let id = entity_id(9);
    let (vk_secret, vk_bytes) = mock_keypair(47);
    let config = setup(&regulator, vk_bytes);

    let usdc_code = *b"USDC";
    let xlm_code = *b"XLM_";
    let threshold_usdc: u64 = 1_000_000;
    let threshold_xlm: u64 = 500_000;
    let timestamp: u64 = 1_700_000_010;
    let commitment = [0x55; 32];

    let mut blob = vec![2u8, 0, 0, 0];
    for (code, threshold) in [(&usdc_code, threshold_usdc), (&xlm_code, threshold_xlm)] {
        let sig = sign_attestation(&vk_secret, &id, code, threshold, timestamp, &commitment, 0x01);
        blob_record(&mut blob, code, &commitment, 0x01, &sig);
    }
    assert_eq!(blob.len(), 4 + 2 * 108);

    let records = parse_proofs_blob(&blob).unwrap();
    let thresholds = vec![Some(threshold_usdc), Some(threshold_xlm)];
    let result = UmbraAudit::submit_proofs_multi(&config, &entity, &id, &records, &thresholds, timestamp).unwrap();
    assert!(result.all_passed, "all assets should pass");
    assert_eq!(result.outcomes.len(), 2);
    for o in &result.outcomes {
        assert!(host_accepts(&o.check));
    }
}

#[test]
fn test_multi_asset_one_fail_returns_false() {
    let regulator = address("GREGULATOR");
    let entity = address("GENTITY");
    let id = entity_id(10);
    let (vk_secret, vk_bytes) = mock_keypair(48);
    let config = setup(&regulator, vk_bytes);

    let usdc_code = *b"USDC";
    let xlm_code = *b"XLM_";
    let threshold: u64 = 1_000_000;
    let timestamp: u64 = 1_700_000_020;
    let commitment = [0x66; 32];

    let mut blob = vec![2u8, 0, 0, 0];
    let sig_pass = sign_attestation(&vk_secret, &id, &usdc_code, threshold, timestamp, &commitment, 0x01);
    blob_record(&mut blob, &usdc_code, &commitment, 0x01, &sig_pass);
    let sig_fail = sign_attestation(&vk_secret, &id, &xlm_code, threshold, timestamp, &commitment, 0x00);
    blob_record(&mut blob, &xlm_code, &commitment, 0x00, &sig_fail);

    let records = parse_proofs_blob(&blob).unwrap();
    let thresholds = vec![Some(threshold), Some(threshold)];
    let result = UmbraAudit::submit_proofs_multi(&config, &entity, &id, &records, &thresholds, timestamp).unwrap();
    assert!(!result.all_passed, "aggregate should fail when any asset fails");
    assert!(result.outcomes[0].passed);
    assert!(!result.outcomes[1].passed);
}

#[test]
fn blob_errors() {
    assert_eq!(parse_proofs_blob(&[1, 0, 0]).err(), Some(AuditError::BlobTooShort));
    assert_eq!(parse_proofs_blob(&[1, 0, 0, 0]).err(), Some(AuditError::BlobLengthMismatch));
    assert_eq!(parse_proofs_blob(&[0xff, 0xff, 0xff, 0xff]).err(), Some(AuditError::CountOverflow));
    assert_eq!(parse_proofs_blob(&[0, 0, 0, 0]).unwrap().len(), 0);
    assert_eq!(AuditError::BlobLengthMismatch.message(), "proofs_blob length mismatch");
}

#[test]
fn blob_records_are_read_at_their_offsets() {
    let mut blob = vec![1u8, 0, 0, 0];
    let sig = [0x5a; 64];
    blob_record(&mut blob, b"ABCD", &[0x11; 32], 0x01, &sig);
    blob[4 + 37] = 0xee; // reserved bytes are ignored
    let records = parse_proofs_blob(&blob).unwrap();
    assert_eq!(records.len(), 1);
    assert_eq!(&records[0].asset_code, b"ABCD");
    assert_eq!(records[0].commitment, [0x11; 32]);
    assert_eq!(records[0].proof_result, 0x01);
    assert_eq!(records[0].signature, sig);
}

#[test]
fn multi_without_threshold_is_refused() {
    let config = setup(&address("GREGULATOR"), mock_keypair(2).1);
    let mut blob = vec![1u8, 0, 0, 0];
    blob_record(&mut blob, b"USDC", &[0; 32], 1, &[0; 64]);
    let records = parse_proofs_blob(&blob).unwrap();
    let res = UmbraAudit::submit_proofs_multi(&config, &address("G"), &entity_id(1), &records, &vec![None], 0).unwrap();
    assert!(res.missing_threshold);
    assert!(res.outcomes.is_empty());
    assert_eq!(AuditError::NoThreshold.message(), "no threshold set for asset");
}

#[test]
fn multi_stops_at_the_first_asset_without_threshold() {
    let config = setup(&address("GREGULATOR"), mock_keypair(2).1);
    let mut blob = vec![3u8, 0, 0, 0];
    blob_record(&mut blob, b"USDC", &[0; 32], 1, &[0; 64]);
    blob_record(&mut blob, b"EURC", &[0; 32], 0, &[0; 64]);
    blob_record(&mut blob, b"XLM\0", &[0; 32], 1, &[0; 64]);
    let records = parse_proofs_blob(&blob).unwrap();
    let thresholds = vec![Some(10), None, Some(30)];
    let res = UmbraAudit::submit_proofs_multi(&config, &address("G"), &entity_id(1), &records, &thresholds, 0).unwrap();
    assert!(res.missing_threshold);
    assert_eq!(res.outcomes.len(), 1);
    assert_eq!(&res.outcomes[0].event.asset_code, b"USDC");
    assert_eq!(res.outcomes[0].event.threshold, 10);

    let all = vec![Some(10), Some(20), Some(30)];
    let res = UmbraAudit::submit_proofs_multi(&config, &address("G"), &entity_id(1), &records, &all, 0).unwrap();
    assert!(!res.missing_threshold);
    assert_eq!(res.outcomes.len(), 3);
    assert!(!res.all_passed);
    assert!(res.outcomes[0].passed && !res.outcomes[1].passed && res.outcomes[2].passed);
    assert_eq!(UmbraAudit::submit_proofs_multi(&None, &address("G"), &entity_id(1), &records, &all, 0).err(), Some(AuditError::NotInitialized));
}

#[test]
fn malformed_result_byte_fails_and_still_needs_the_signature() {
    let a = verify_attestation(&[1; 32], &[2; 32], b"USDC", 5, 6, &[3; 32], 2, &[0; 64]);
    assert_eq!(a.result, VerificationResult::MalformedInput);
    assert_eq!(a.check.message.len(), 99);
    assert_eq!(a.check.message[98], 2);
    let config = setup(&address("GREGULATOR"), mock_keypair(3).1);
    // 258 is read as its low byte, 2: malformed, and the (invalid)
    // signature is still handed to the host, which aborts on it.
    let s = submit(&config, 1, &address("G"), &entity_id(1), *b"USDC", [0; 32], 258, [0; 64], 0);
    assert!(!s.passed && !s.event.passed);
    assert!(!host_accepts(&s.check));
    // 257 is read as its low byte, 1: pass.
    let s = submit(&config, 1, &address("G"), &entity_id(1), *b"USDC", [0; 32], 257, [0; 64], 0);
    assert!(s.passed);
}

#[test]
fn attestation_message_is_99_bytes_in_the_documented_layout() {
    let a = verify_attestation(&[9; 32], &[2; 32], b"USDC", 0x0102, 0x0304, &[3; 32], 1, &[4; 64]);
    assert_eq!(a.result, VerificationResult::Passed);
    let c = a.check;
    assert_eq!(c.message.len(), 99);
    assert_eq!(&c.message[..14], b"umbra-audit-v1");
    assert_eq!(&c.message[14..46], &[2; 32]);
    assert_eq!(&c.message[46..50], b"USDC");
    assert_eq!(&c.message[50..58], &0x0102u64.to_le_bytes());
    assert_eq!(&c.message[58..66], &0x0304u64.to_le_bytes());
    assert_eq!(&c.message[66..98], &[3; 32]);
    assert_eq!(c.message[98], 1);
    assert_eq!(c.public_key, [9; 32]);
    assert_eq!(c.signature, [4; 64]);
}

#[test]
fn verifier_key_rotation_keeps_regulator() {
    let regulator = address("GREGULATOR");
    let config = setup(&regulator, [1; 32]);
    let rotated = UmbraAudit::set_verifier_key(config, [2; 32]).unwrap();
    assert_eq!(rotated.regulator.strkey(), regulator.strkey());
    assert_eq!(rotated.verifier_key, [2; 32]);
    assert_eq!(UmbraAudit::set_verifier_key(None, [2; 32]).err(), Some(AuditError::NotInitialized));
    assert_eq!(UmbraAudit::version(), 2);
}

#[test]
fn blob_submission_of_one_record_agrees_with_single_submission() {
    let (secret, vk) = mock_keypair(4);
    let config = setup(&address("GREGULATOR"), vk);
    let entity = address("GENTITY");
    let id = entity_id(9);
    for result in [0u8, 1u8] {
        let sig = sign_attestation(&secret, &id, b"USDC", 500, 77, &[0x44; 32], result);
        let single = submit(&config, 500, &entity, &id, *b"USDC", [0x44; 32], result as u32, sig, 77);
        let mut blob = vec![1u8, 0, 0, 0];
        blob_record(&mut blob, b"USDC", &[0x44; 32], result, &sig);
        let batch = UmbraAudit::submit_proofs_blob(&config, &entity, &id, &blob, &vec![Some(500)], 77).unwrap();
        assert!(!batch.missing_threshold);
        assert_eq!(batch.outcomes.len(), 1);
        assert_eq!(batch.all_passed, single.passed);
        assert_eq!(batch.outcomes[0].passed, single.passed);
        assert_eq!(batch.outcomes[0].check.message, single.check.message);
        assert!(host_accepts(&batch.outcomes[0].check));
        assert_eq!(batch.outcomes[0].event.threshold, single.event.threshold);
    }
    assert_eq!(
        UmbraAudit::submit_proofs_blob(&config, &entity, &id, &[1, 0, 0], &vec![], 77).err(),
        Some(AuditError::BlobTooShort)
    );
    assert_eq!(
        UmbraAudit::submit_proofs_blob(&None, &entity, &id, &[0, 0, 0, 0], &vec![], 77).err(),
        Some(AuditError::NotInitialized)
    );
}
