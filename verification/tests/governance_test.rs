use mrv_drwa::env::BlockchainEnv;
use mrv_drwa::governance::{GovernanceEvent, GovernanceState, MrvGovernance, PROPOSAL_TYPE_PAUSE, PROPOSAL_TYPE_VERIFIER_ACCREDITATION};

/// A 32-byte test address: the name padded with underscores.
fn addr(name: &str) -> Vec<u8> {
    let mut a = name.as_bytes().to_vec();
    a.resize(32, b'_');
    a
}

fn at(caller: &str, timestamp: u64) -> BlockchainEnv {
    BlockchainEnv {
        caller: addr(caller),
        owner: addr("owner"),
        contract: addr("mrv-governance"),
        block_round: 0,
        block_epoch: 0,
        block_timestamp: timestamp,
    }
}

fn deploy() -> GovernanceState {
    GovernanceState::init(&at("owner", 0), 2, 3600, vec![addr("alice"), addr("bob"), addr("carol")]).unwrap()
}

#[test]
fn init_rules() {
    assert_eq!(GovernanceState::init(&at("owner", 0), 0, 3600, vec![addr("alice")]).err(), Some("invalid approval threshold"));
    assert_eq!(
        GovernanceState::init(&at("owner", 0), 1, 3599, vec![addr("alice")]).err(),
        Some("TIMELOCK_TOO_LOW: must be at least 1 hour (3600 seconds)")
    );
    assert_eq!(
        GovernanceState::init(&at("owner", 0), 1, 3600, vec![addr("alice"), vec![0u8; 32]]).err(),
        Some("signer must not be zero")
    );
    // Duplicates count once.
    assert_eq!(
        GovernanceState::init(&at("owner", 0), 2, 3600, vec![addr("alice"), addr("alice")]).err(),
        Some("threshold exceeds signer count")
    );
    let sc = deploy();
    assert!(sc.is_signer(&addr("bob")));
    assert_eq!(sc.get_approval_threshold(), 2);
    assert_eq!(sc.get_timelock_seconds(), 3600);
    assert!(!sc.get_paused());
}

#[test]
fn pause_proposal_needs_quorum_and_timelock() {
    let mut sc = deploy();
    assert_eq!(
        sc.propose_emergency_pause(&at("alice", 100), b"p1".to_vec(), true),
        Ok(GovernanceEvent::ProposalCreated { proposal_id: b"p1".to_vec(), proposal_type: PROPOSAL_TYPE_PAUSE })
    );
    assert_eq!(sc.propose_emergency_pause(&at("alice", 100), b"p1".to_vec(), true), Err("proposal already exists"));
    assert_eq!(sc.propose_emergency_pause(&at("mallory", 100), b"p2".to_vec(), true), Err("caller not signer"));
    assert_eq!(sc.get_proposal(b"p1").unwrap().eta, 3700);

    assert_eq!(
        sc.approve_proposal(&at("alice", 200), b"p1".to_vec()),
        Ok(GovernanceEvent::ProposalApproved { proposal_id: b"p1".to_vec(), signer: addr("alice"), approval_count: 1 })
    );
    assert_eq!(sc.approve_proposal(&at("alice", 200), b"p1".to_vec()), Err("ALREADY_APPROVED"));
    assert_eq!(sc.execute_proposal(&at("alice", 5000), b"p1".to_vec()), Err("insufficient approvals"));
    sc.approve_proposal(&at("bob", 200), b"p1".to_vec()).unwrap();
    assert_eq!(sc.get_approval_count(b"p1"), 2);
    assert_eq!(sc.execute_proposal(&at("alice", 3699), b"p1".to_vec()), Err("timelock not elapsed"));
    assert_eq!(
        sc.execute_proposal(&at("carol", 3700), b"p1".to_vec()),
        Ok(vec![GovernanceEvent::PauseChanged { paused: true }, GovernanceEvent::ProposalExecuted { proposal_id: b"p1".to_vec() }])
    );
    assert!(sc.get_paused());
    assert!(sc.get_proposal(b"p1").unwrap().executed);
    assert_eq!(sc.execute_proposal(&at("carol", 3800), b"p1".to_vec()), Err("proposal already executed"));
    assert_eq!(sc.approve_proposal(&at("carol", 3800), b"p1".to_vec()), Err("proposal already executed"));
}

#[test]
fn proposals_expire_thirty_days_after_their_timelock() {
    let mut sc = deploy();
    sc.propose_emergency_pause(&at("alice", 0), b"p1".to_vec(), true).unwrap();
    sc.approve_proposal(&at("alice", 0), b"p1".to_vec()).unwrap();
    sc.approve_proposal(&at("bob", 0), b"p1".to_vec()).unwrap();
    assert_eq!(
        sc.execute_proposal(&at("alice", 3600 + 2_592_001), b"p1".to_vec()),
        Err("PROPOSAL_EXPIRED: must be executed within 30 days of timelock expiry")
    );
    sc.execute_proposal(&at("alice", 3600 + 2_592_000), b"p1".to_vec()).unwrap();
}

#[test]
fn verifier_accreditation_and_badges() {
    let mut sc = deploy();
    assert_eq!(
        sc.propose_verifier_accreditation(&at("alice", 0), b"v1".to_vec(), vec![0u8; 32], true, b"vvb".to_vec()),
        Err("verifier must not be zero")
    );
    assert_eq!(
        sc.propose_verifier_accreditation(&at("alice", 0), b"v1".to_vec(), addr("vvb"), true, b"vvb".to_vec()),
        Ok(GovernanceEvent::ProposalCreated { proposal_id: b"v1".to_vec(), proposal_type: PROPOSAL_TYPE_VERIFIER_ACCREDITATION })
    );
    sc.approve_proposal(&at("alice", 0), b"v1".to_vec()).unwrap();
    sc.approve_proposal(&at("bob", 0), b"v1".to_vec()).unwrap();
    assert_eq!(
        sc.execute_proposal(&at("alice", 4000), b"v1".to_vec()),
        Ok(vec![
            GovernanceEvent::VerifierAccreditationChanged { verifier: addr("vvb"), approved: true, role: b"vvb".to_vec() },
            GovernanceEvent::ProposalExecuted { proposal_id: b"v1".to_vec() },
        ])
    );
    assert!(sc.is_accredited_vvb(&addr("vvb")));

    sc.propose_badge_issuance(&at("alice", 0), b"b1".to_vec(), addr("farmer"), b"sha256:badge".to_vec()).unwrap();
    sc.propose_badge_issuance(&at("alice", 0), b"b2".to_vec(), addr("farmer"), b"sha256:badge-2".to_vec()).unwrap();
    for id in [b"b1".to_vec(), b"b2".to_vec()] {
        sc.approve_proposal(&at("alice", 0), id.clone()).unwrap();
        sc.approve_proposal(&at("carol", 0), id).unwrap();
    }
    assert_eq!(
        sc.execute_proposal(&at("alice", 4000), b"b1".to_vec()),
        Ok(vec![
            GovernanceEvent::BadgeIssued { farmer: addr("farmer"), badge_metadata_hash: b"sha256:badge".to_vec() },
            GovernanceEvent::ProposalExecuted { proposal_id: b"b1".to_vec() },
        ])
    );
    assert_eq!(sc.get_badge_issuance(&addr("farmer")), Some(&b"sha256:badge".to_vec()));
    assert_eq!(
        sc.execute_proposal(&at("alice", 4000), b"b2".to_vec()),
        Err("BADGE_ALREADY_ISSUED: farmer already has a badge — revoke first")
    );
}

#[test]
fn gsoc_verifier_proposals() {
    let mut sc = deploy();
    assert_eq!(
        sc.propose_gsoc_verifier(&at("alice", 0), b"did:gsoc:1".to_vec(), b"bafycreds".to_vec(), b"KE".to_vec()),
        Ok(GovernanceEvent::GsocVerifierProposed { verifier_did: b"did:gsoc:1".to_vec(), jurisdiction: b"KE".to_vec() })
    );
    assert_eq!(sc.next_gsoc_verifier_proposal_id, 2);
    assert_eq!(sc.approve_gsoc_verifier_proposal(&at("alice", 0), 7), Err("proposal not found"));
    sc.approve_gsoc_verifier_proposal(&at("alice", 0), 1).unwrap();
    assert_eq!(sc.approve_gsoc_verifier_proposal(&at("alice", 0), 1), Err("ALREADY_APPROVED"));
    assert_eq!(sc.execute_gsoc_verifier_proposal(&at("alice", 100), 1), Err("timelock not expired"));
    assert_eq!(
        sc.execute_gsoc_verifier_proposal(&at("alice", 3600), 1),
        Err("INSUFFICIENT_APPROVALS: need at least threshold approvals for GSOC verifier proposals")
    );
    sc.approve_gsoc_verifier_proposal(&at("bob", 0), 1).unwrap();
    assert_eq!(
        sc.execute_gsoc_verifier_proposal(&at("alice", 3600), 1),
        Ok(GovernanceEvent::GsocVerifierAdded { verifier_did: b"did:gsoc:1".to_vec() })
    );
    assert!(sc.is_gsoc_verifier_approved(b"did:gsoc:1"));
    // An executed GSOC proposal is removed.
    assert_eq!(sc.execute_gsoc_verifier_proposal(&at("alice", 3600), 1), Err("proposal not found"));
}

#[test]
fn signer_set_keeps_the_threshold_reachable() {
    let mut sc = deploy();
    assert_eq!(sc.add_signer(&at("alice", 0), addr("dave")), Err("Endpoint can only be called by owner"));
    assert_eq!(sc.add_signer(&at("owner", 0), addr("dave")), Ok(GovernanceEvent::SignerAdded { signer: addr("dave") }));
    assert!(sc.is_signer(&addr("dave")));
    assert_eq!(sc.remove_signer(&at("owner", 0), addr("dave")), Ok(GovernanceEvent::SignerRemoved { signer: addr("dave") }));
    sc.remove_signer(&at("owner", 0), addr("carol")).unwrap();
    // Two signers left for a threshold of two: removing another is refused.
    assert!(sc.remove_signer(&at("owner", 0), addr("bob")).is_err());
    assert!(sc.set_approval_threshold(&at("owner", 0), 3).is_err());
    assert!(sc.set_timelock_seconds(&at("owner", 0), 10).is_err());
}

#[test]
fn settings_and_gsoc_removal_emit_their_events() {
    let mut sc = deploy();
    assert_eq!(sc.set_approval_threshold(&at("owner", 0), 3), Ok(GovernanceEvent::ThresholdChanged { approval_threshold: 3 }));
    assert_eq!(sc.set_timelock_seconds(&at("owner", 0), 7200), Ok(GovernanceEvent::TimelockChanged { timelock_seconds: 7200 }));
    assert_eq!(sc.remove_gsoc_verifier(&at("owner", 0), b"did:gsoc:9".to_vec()), Err("verifier not found"));
    sc.set_approval_threshold(&at("owner", 0), 1).unwrap();
    sc.propose_gsoc_verifier(&at("alice", 0), b"did:gsoc:9".to_vec(), b"bafycreds".to_vec(), b"KE".to_vec()).unwrap();
    sc.approve_gsoc_verifier_proposal(&at("alice", 0), 1).unwrap();
    sc.execute_gsoc_verifier_proposal(&at("alice", 7200), 1).unwrap();
    assert_eq!(
        sc.remove_gsoc_verifier(&at("owner", 0), b"did:gsoc:9".to_vec()),
        Ok(GovernanceEvent::GsocVerifierRemoved { verifier_did: b"did:gsoc:9".to_vec() })
    );
    assert!(!sc.is_gsoc_verifier_approved(b"did:gsoc:9"));
}
