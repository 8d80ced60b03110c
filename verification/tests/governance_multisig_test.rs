use mrv_drwa::env::BlockchainEnv;
use mrv_drwa::governance_multisig::{GovernanceMultisig, MultisigEvent, MultisigState};

/// A 32-byte test address: the name padded with underscores.
fn addr(name: &str) -> Vec<u8> {
    let mut a = name.as_bytes().to_vec();
    a.resize(32, b'_');
    a
}

fn at(caller: &str, timestamp: u64) -> BlockchainEnv {
    BlockchainEnv {
        caller: addr(caller),
        owner: addr("owner"),
        contract: addr("governance-multisig"),
        block_round: 0,
        block_epoch: 0,
        block_timestamp: timestamp,
    }
}

/// Owner, alice and bob sign; two approvals execute a proposal.
fn deploy() -> MultisigState {
    MultisigState::init(&at("owner", 0), 2, vec![addr("alice"), addr("bob")]).unwrap()
}

fn dispute(sc: &mut MultisigState, caller: &str, id: &[u8], action: &[u8]) -> Result<MultisigEvent, &'static str> {
    sc.submit_dispute(&at(caller, 100), id.to_vec(), b"rfq-1".to_vec(), addr("accused"), b"bafyevidence".to_vec(), action.to_vec())
}

#[test]
fn init_counts_the_owner_as_a_signer() {
    let sc = deploy();
    assert!(sc.is_signer(&addr("owner")));
    assert!(sc.is_signer(&addr("alice")));
    assert_eq!(
        MultisigState::init(&at("owner", 0), 3, vec![addr("alice")]).err(),
        Some("INSUFFICIENT_INITIAL_SIGNERS: must provide enough signers to meet threshold at deploy")
    );
    assert_eq!(MultisigState::init(&at("owner", 0), 2, vec![vec![0u8; 32]]).err(), Some("signer must not be zero"));
}

#[test]
fn proposals_execute_with_live_approvals_before_expiry() {
    let mut sc = deploy();
    assert_eq!(
        sc.propose_action(&at("alice", 0), b"p1".to_vec(), b"delete_everything".to_vec(), addr("t"), Vec::new()),
        Err("invalid proposal_type")
    );
    assert_eq!(
        sc.propose_action(&at("alice", 0), b"p1".to_vec(), b"freeze".to_vec(), addr("t"), b"data".to_vec()),
        Ok(MultisigEvent::ProposalCreated { proposal_id: b"p1".to_vec() })
    );
    assert_eq!(
        sc.approve_proposal(&at("alice", 10), b"p1".to_vec()),
        Ok(MultisigEvent::ProposalApproved { proposal_id: b"p1".to_vec(), signer: addr("alice"), approval_count: 1 })
    );
    assert_eq!(sc.approve_proposal(&at("alice", 10), b"p1".to_vec()), Err("already approved"));
    assert_eq!(sc.execute_proposal(&at("alice", 20), b"p1".to_vec()), Err("insufficient approvals"));
    sc.approve_proposal(&at("bob", 10), b"p1".to_vec()).unwrap();
    // Once bob is no longer a signer his approval stops counting.
    assert_eq!(sc.remove_signer(&at("owner", 15), addr("bob")), Ok(MultisigEvent::SignerRemoved { signer: addr("bob") }));
    assert_eq!(sc.execute_proposal(&at("alice", 20), b"p1".to_vec()), Err("insufficient approvals"));
    // The event counts every recorded approval, bob's included.
    assert_eq!(
        sc.approve_proposal(&at("owner", 20), b"p1".to_vec()),
        Ok(MultisigEvent::ProposalApproved { proposal_id: b"p1".to_vec(), signer: addr("owner"), approval_count: 3 })
    );
    assert_eq!(
        sc.execute_proposal(&at("alice", 172_801), b"p1".to_vec()),
        Err("PROPOSAL_EXPIRED: proposal must be executed within expiry window")
    );
    assert_eq!(
        sc.execute_proposal(&at("alice", 172_800), b"p1".to_vec()),
        Ok(MultisigEvent::ProposalExecuted { proposal_id: b"p1".to_vec() })
    );
    assert!(sc.get_proposal(b"p1").unwrap().executed);
}

#[test]
fn disputes_resolve_at_two_thirds() {
    let mut sc = deploy();
    assert_eq!(dispute(&mut sc, "mallory", b"d1", b"FREEZE"), Err("caller not authorized to submit disputes"));
    assert_eq!(dispute(&mut sc, "alice", b"d1", b"BURN"), Err("requested_action must be FREEZE, CLAW_BACK, or WARN"));
    assert_eq!(dispute(&mut sc, "alice", b"d1", b"CLAW_BACK"), Ok(MultisigEvent::DisputeSubmitted { dispute_id: b"d1".to_vec() }));
    assert_eq!(sc.get_dispute(b"d1").unwrap().total_signers_at_creation, 3);

    assert_eq!(
        sc.vote_on_dispute(&at("alice", 200), b"d1".to_vec(), true),
        Ok(MultisigEvent::DisputeVoted { dispute_id: b"d1".to_vec(), voter: addr("alice"), approve: true })
    );
    assert_eq!(sc.vote_on_dispute(&at("alice", 200), b"d1".to_vec(), true), Err("already voted on this dispute"));
    assert!(!sc.get_dispute(b"d1").unwrap().resolved);
    // Two of three is the supermajority.
    sc.vote_on_dispute(&at("bob", 300), b"d1".to_vec(), true).unwrap();
    let d = sc.get_dispute(b"d1").unwrap();
    assert!(d.resolved);
    assert_eq!(d.action_taken, b"CLAW_BACK".to_vec());
    assert_eq!(d.vote_approve, 2);
    assert_eq!(d.decided_at, 300);
    assert_eq!(sc.vote_on_dispute(&at("owner", 400), b"d1".to_vec(), false), Err("dispute already resolved"));
}

#[test]
fn rejected_disputes_are_dismissed_and_late_votes_refused() {
    let mut sc = deploy();
    dispute(&mut sc, "owner", b"d2", b"WARN").unwrap();
    sc.vote_on_dispute(&at("alice", 200), b"d2".to_vec(), false).unwrap();
    sc.vote_on_dispute(&at("owner", 200), b"d2".to_vec(), false).unwrap();
    let d = sc.get_dispute(b"d2").unwrap();
    assert!(d.resolved);
    assert_eq!(d.action_taken, b"DISMISSED".to_vec());

    dispute(&mut sc, "owner", b"d3", b"FREEZE").unwrap();
    assert_eq!(
        sc.vote_on_dispute(&at("alice", 100 + 2_592_001), b"d3".to_vec(), true),
        Err("DISPUTE_EXPIRED: disputes must be resolved within 30 days of creation")
    );
    // A signer added after the dispute was opened cannot vote on it.
    assert_eq!(sc.add_signer(&at("owner", 150), addr("carol")), Ok(MultisigEvent::SignerAdded { signer: addr("carol") }));
    assert_eq!(
        sc.vote_on_dispute(&at("carol", 200), b"d3".to_vec(), true),
        Err("caller was not eligible when dispute was created")
    );
}
