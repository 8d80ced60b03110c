use mrv_drwa::drwa_common::{
    build_sync_hook_payload, make_sync_envelope, push_len_prefixed, require_valid_aml_status, require_valid_kyc_status,
    require_valid_token_id, serialize_sync_envelope_payload, DrwaCallerDomain, DrwaSyncOperation,
    DrwaSyncOperationType,
};

#[test]
fn drwa_sync_hook_payload_handles_max_operations_near_payload_cap() {
    const MAX_OPS: usize = 256;
    const MAX_NATIVE_PAYLOAD_BYTES: usize = 1 << 20;
    const BODY_BYTES: usize = 4_029;

    let mut operations = Vec::new();
    let body = vec![b'a'; BODY_BYTES];
    for version in 1..=MAX_OPS as u64 {
        operations.push(DrwaSyncOperation {
            operation_type: DrwaSyncOperationType::TokenPolicy,
            token_id: b"CARBON-ab12cd".to_vec(),
            holder: vec![0u8; 32],
            version,
            body: body.clone(),
        });
    }

    let payload_hash = vec![7u8; 32];
    let hook_payload =
        build_sync_hook_payload(&DrwaCallerDomain::PolicyRegistry, &operations, &payload_hash);

    assert_eq!(operations.len(), MAX_OPS);
    assert!(
        hook_payload.len() <= MAX_NATIVE_PAYLOAD_BYTES,
        "max-operation sync payload must stay within the native 1 MiB cap"
    );
    assert!(
        hook_payload.len() > MAX_NATIVE_PAYLOAD_BYTES - 4_096,
        "regression should exercise the near-cap payload shape"
    );
}

#[test]
fn token_id_rules_in_order() {
    assert_eq!(require_valid_token_id(b"CARBON-ab12cd"), Ok(()));
    assert_eq!(require_valid_token_id(b""), Err("token_id must not be empty"));
    assert_eq!(require_valid_token_id(b"AB-1234"), Err("token_id is too short"));
    assert_eq!(require_valid_token_id(b"AB\0-123456"), Err("token_id must not contain null bytes"));
    assert_eq!(require_valid_token_id(b"HOTEL-001-aa"), Err("token_id must contain exactly one hyphen"));
    assert_eq!(require_valid_token_id(b"AB-12345"), Err("token_id ticker is too short"));
    assert_eq!(require_valid_token_id(b"ABCDEFGHIJK-abcdef"), Err("token_id ticker is too long (max 10 chars)"));
    assert_eq!(require_valid_token_id(b"HOTEL-001"), Err("token_id suffix must be 6 characters"));
    assert_eq!(require_valid_token_id(b"hotel-abcdef"), Err("token_id ticker must be uppercase alphanumeric"));
    assert_eq!(require_valid_token_id(b"HOTEL-abcdeg"), Err("token_id suffix must be lowercase hex"));
}

#[test]
fn status_vocabularies() {
    assert_eq!(require_valid_kyc_status(b"approved"), Ok(()));
    assert!(require_valid_kyc_status(b"clear").is_err());
    assert_eq!(require_valid_aml_status(b"clear"), Ok(()));
    assert!(require_valid_aml_status(b"approved").is_err());
}

#[test]
fn len_prefix_and_payload_layout() {
    let mut dest = vec![9u8];
    push_len_prefixed(&mut dest, b"abc");
    assert_eq!(dest, vec![9, 0, 0, 0, 3, b'a', b'b', b'c']);

    let ops = vec![DrwaSyncOperation {
        operation_type: DrwaSyncOperationType::HolderAuditorAuthorization,
        token_id: b"T".to_vec(),
        holder: vec![1u8, 2],
        version: 258,
        body: vec![7u8],
    }];
    let payload = serialize_sync_envelope_payload(&DrwaCallerDomain::Attestation, &ops);
    assert_eq!(
        payload,
        vec![3, 4, 0, 0, 0, 1, b'T', 0, 0, 0, 2, 1, 2, 0, 0, 0, 0, 0, 0, 1, 2, 0, 0, 0, 1, 7]
    );
}

#[test]
fn envelope_hash_is_keccak_of_payload() {
    // The payload of an attestation envelope without operations is the
    // single domain tag 3; its hash is Keccak-256 of that byte.
    let e = make_sync_envelope(DrwaCallerDomain::Attestation, Vec::new());
    assert_eq!(
        e.payload_hash,
        vec![
            105, 195, 34, 227, 36, 138, 93, 252, 41, 215, 60, 91, 5, 83, 176, 24, 90, 53, 205, 91, 182, 56, 103,
            71, 81, 126, 247, 229, 59, 21, 226, 135
        ]
    );
    assert!(e.operations.is_empty());
}
