use mrv_drwa::attestation::{AttestationOverwrittenEvent, AttestationState, AuditorEvent, DrwaAttestation};
use mrv_drwa::drwa_common::{DrwaCallerDomain, DrwaSyncOperationType};
use mrv_drwa::env::BlockchainEnv;

const TOKEN: &[u8] = b"HOTEL-ab12cd";

/// A 32-byte test address: the name padded with underscores.
fn addr(name: &str) -> Vec<u8> {
    let mut a = name.as_bytes().to_vec();
    a.resize(32, b'_');
    a
}

fn at(caller: &str, round: u64) -> BlockchainEnv {
    BlockchainEnv {
        caller: addr(caller),
        owner: addr("owner"),
        contract: addr("drwa-attestation"),
        block_round: round,
        block_epoch: 0,
        block_timestamp: 0,
    }
}

fn deploy() -> AttestationState {
    AttestationState::init(&at("owner", 0), addr("auditor")).unwrap()
}

fn record(sc: &mut AttestationState, caller: &str, approved: bool) -> Result<(bool, u64, Vec<u8>), &'static str> {
    sc.record_attestation(&at(caller, 7), TOKEN.to_vec(), addr("holder"), b"KYC".to_vec(), b"sha256:ev".to_vec(), approved, 0)
        .map(|(_, ev, e)| {
            let version = e.operations.first().map(|o| o.version).unwrap_or(0);
            let body = e.operations.first().map(|o| o.body.clone()).unwrap_or_default();
            (ev.is_some(), version, body)
        })
}

#[test]
fn auditor_records_and_the_authorization_is_versioned() {
    let mut sc = deploy();
    assert_eq!(record(&mut sc, "owner", true).err(), Some("caller not auditor"));
    let (event, version, body) = record(&mut sc, "auditor", true).unwrap();
    assert!(event);
    assert_eq!(version, 1);
    // The body is the version (8 bytes, big-endian), then the flag.
    assert_eq!(body, vec![0, 0, 0, 0, 0, 0, 0, 1, 1]);
    let a = sc.get_attestation(TOKEN, &addr("holder")).unwrap();
    assert!(a.approved);
    assert_eq!(a.attested_round, 7);

    // Repeating the same attestation changes nothing and syncs nothing.
    let (event, version, _) = record(&mut sc, "auditor", true).unwrap();
    assert!(!event);
    assert_eq!(version, 0);

    let (_, version, body) = record(&mut sc, "auditor", false).unwrap();
    assert_eq!(version, 2);
    assert_eq!(body, vec![0, 0, 0, 0, 0, 0, 0, 2, 0]);
}

#[test]
fn revoking_an_approved_attestation() {
    let mut sc = deploy();
    assert_eq!(
        sc.revoke_attestation(&at("auditor", 1), TOKEN.to_vec(), addr("holder"), 0).err(),
        Some("attestation does not exist")
    );
    record(&mut sc, "auditor", true).unwrap();
    let (ev, e) = sc.revoke_attestation(&at("auditor", 9), TOKEN.to_vec(), addr("holder"), 0).unwrap();
    let ev = ev.unwrap();
    assert!(!ev.approved);
    assert_eq!(ev.attested_round, 9);
    assert!(e.caller_domain == DrwaCallerDomain::Attestation);
    assert!(e.operations[0].operation_type == DrwaSyncOperationType::HolderAuditorAuthorization);
    assert_eq!(e.operations[0].holder, addr("holder"));
    assert_eq!(e.operations[0].version, 2);
    assert!(!sc.get_attestation(TOKEN, &addr("holder")).unwrap().approved);
    // Revoking again is a no-op with an empty envelope.
    let (ev, e) = sc.revoke_attestation(&at("auditor", 10), TOKEN.to_vec(), addr("holder"), 0).unwrap();
    assert!(ev.is_none());
    assert!(e.operations.is_empty());
}

#[test]
fn subject_and_token_rules() {
    let mut sc = deploy();
    assert_eq!(
        sc.record_attestation(&at("auditor", 1), TOKEN.to_vec(), vec![0u8; 32], b"KYC".to_vec(), b"h".to_vec(), true, 0).err(),
        Some("ZERO_ADDRESS: subject must not be zero")
    );
    assert_eq!(
        sc.record_attestation(&at("auditor", 1), b"hotel-ab12cd".to_vec(), addr("holder"), b"KYC".to_vec(), b"h".to_vec(), true, 0)
            .err(),
        Some("token_id ticker must be uppercase alphanumeric")
    );
}

#[test]
fn auditor_handover() {
    let mut sc = deploy();
    assert_eq!(sc.set_auditor(&at("auditor", 0), addr("next")), Err("Endpoint can only be called by owner"));
    assert_eq!(sc.set_auditor(&at("owner", 100), addr("next")), Ok(AuditorEvent::Proposed { auditor: addr("next") }));
    assert_eq!(sc.accept_auditor(&at("next", 1101)), Err("pending auditor acceptance expired"));
    assert_eq!(sc.accept_auditor(&at("other", 1100)), Err("caller not pending auditor"));
    assert_eq!(sc.accept_auditor(&at("next", 1100)), Ok(AuditorEvent::Accepted { auditor: addr("next") }));
    assert_eq!(sc.get_auditor(), addr("next"));
    assert_eq!(record(&mut sc, "auditor", true).err(), Some("caller not auditor"));
    assert_eq!(sc.revoke_auditor(&at("owner", 0)), Ok(AuditorEvent::Revoked { previous_auditor: addr("next") }));
    assert_eq!(sc.get_auditor(), vec![0u8; 32]);
    assert_eq!(sc.revoke_auditor(&at("owner", 0)), Ok(AuditorEvent::Revoked { previous_auditor: vec![0u8; 32] }));
    assert_eq!(record(&mut sc, "next", true).err(), Some("caller not auditor"));
}

#[test]
fn replacing_an_attestation_announces_the_overwrite() {
    let mut sc = deploy();
    let (overwritten, _, _) = sc
        .record_attestation(&at("auditor", 1), TOKEN.to_vec(), addr("holder"), b"KYC".to_vec(), b"h1".to_vec(), true, 0)
        .unwrap();
    assert_eq!(overwritten, None);
    let (overwritten, recorded, _) = sc
        .record_attestation(&at("auditor", 2), TOKEN.to_vec(), addr("holder"), b"KYC".to_vec(), b"h2".to_vec(), true, 0)
        .unwrap();
    assert_eq!(
        overwritten,
        Some(AttestationOverwrittenEvent { token_id: TOKEN.to_vec(), subject: addr("holder"), auditor: addr("auditor") })
    );
    assert_eq!(recorded.unwrap().attested_round, 2);
}

#[test]
fn a_failed_mirror_sync_leaves_the_attestation_unchanged() {
    let mut sc = deploy();
    assert_eq!(
        sc.record_attestation(&at("auditor", 7), TOKEN.to_vec(), addr("holder"), b"KYC".to_vec(), b"h".to_vec(), true, 2).err(),
        Some("native mirror sync failed")
    );
    assert!(sc.get_attestation(TOKEN, &addr("holder")).is_none());
    record(&mut sc, "auditor", true).unwrap();
    assert_eq!(
        sc.revoke_attestation(&at("auditor", 8), TOKEN.to_vec(), addr("holder"), 2).err(),
        Some("native mirror sync failed")
    );
    assert!(sc.get_attestation(TOKEN, &addr("holder")).unwrap().approved);
    // the next successful sync still carries version 2
    let (_, version, _) = record(&mut sc, "auditor", false).unwrap();
    assert_eq!(version, 2);
}
