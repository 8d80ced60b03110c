use mrv_drwa::env::BlockchainEnv;
use mrv_drwa::mrv_common::{
    period_key, require_not_paused, source_key, upgrade_storage_version, MrvGovernanceEvent, MrvGovernanceModule, MrvGovernanceState,
    PauseProbe,
};

/// A 32-byte test address: the name padded with underscores.
fn addr(name: &str) -> Vec<u8> {
    let mut a = name.as_bytes().to_vec();
    a.resize(32, b'_');
    a
}

fn at(caller: &str, round: u64) -> BlockchainEnv {
    BlockchainEnv {
        caller: addr(caller),
        owner: addr("owner"),
        contract: addr("mrv"),
        block_round: round,
        block_epoch: 0,
        block_timestamp: 0,
    }
}

#[test]
fn keys_are_big_endian() {
    assert_eq!(period_key(258), vec![0, 0, 0, 0, 0, 0, 1, 2]);
    assert_eq!(period_key(u64::MAX), vec![0xff; 8]);
    assert_eq!(source_key(2), vec![2]);
}

#[test]
fn upgrade_moves_the_slot_only_when_allowed() {
    let mut stored = 0u32;
    assert_eq!(upgrade_storage_version(&mut stored, 2, 2), Ok(()));
    assert_eq!(stored, 2);
    let mut legacy = 1u32;
    assert_eq!(
        upgrade_storage_version(&mut legacy, 2, 2),
        Err("unsupported legacy storage version; explicit migration required")
    );
    assert_eq!(legacy, 1);
}

#[test]
fn pause_check() {
    let user = PauseProbe { authority_is_smart_contract: false, governance_paused: false };
    let contract = PauseProbe { authority_is_smart_contract: true, governance_paused: false };
    let paused = PauseProbe { authority_is_smart_contract: true, governance_paused: true };
    assert_eq!(require_not_paused(&None, &user), Ok(()));
    assert_eq!(require_not_paused(&None, &contract), Err("MRV_GOVERNANCE_READ_NOT_CONFIGURED"));
    assert_eq!(require_not_paused(&Some(addr("gov")), &contract), Ok(()));
    assert_eq!(require_not_paused(&Some(addr("gov")), &paused), Err("MRV_GOVERNANCE_PAUSED"));
}

#[test]
fn owner_bootstraps_governance_then_hands_over() {
    let mut g = MrvGovernanceState::new();
    assert_eq!(g.require_governance_or_owner(&at("owner", 0)), Ok(()));
    assert_eq!(g.require_governance_or_owner(&at("gov", 0)), Err("caller not authorized"));
    assert_eq!(g.set_governance(&at("owner", 10), vec![0u8; 32]), Err("governance must not be zero"));
    assert_eq!(
        g.set_governance(&at("owner", 10), addr("gov")),
        Ok(MrvGovernanceEvent::Proposed { governance: addr("gov") })
    );
    assert_eq!(g.pending_governance_expires_at_round, 1010);
    // Revoking is possible while no governance has been accepted.
    assert_eq!(g.revoke_governance(&at("owner", 11)), Ok(MrvGovernanceEvent::Revoked { previous: vec![0u8; 32] }));
    assert_eq!(g.accept_governance(&at("gov", 12)), Err("pending governance not set"));

    g.set_governance(&at("owner", 20), addr("gov")).unwrap();
    assert_eq!(g.accept_governance(&at("gov", 1021)), Err("pending governance acceptance expired"));
    assert_eq!(g.accept_governance(&at("other", 1020)), Err("caller not pending governance"));
    assert_eq!(g.accept_governance(&at("gov", 1020)), Ok(MrvGovernanceEvent::Accepted { governance: addr("gov") }));
    assert_eq!(g.governance, Some(addr("gov")));
    // Governance and the owner both act; nobody else does, and the owner
    // can no longer revoke.
    assert_eq!(g.require_governance_or_owner(&at("owner", 0)), Ok(()));
    assert_eq!(g.require_governance_or_owner(&at("gov", 0)), Ok(()));
    assert_eq!(g.require_governance_or_owner(&at("other", 0)), Err("caller not authorized"));
    assert_eq!(g.revoke_governance(&at("owner", 0)), Err("active governance cannot be revoked"));
    // Only the active governance rotates it.
    assert_eq!(g.set_governance(&at("owner", 2000), addr("gov2")), Err("caller not authorized"));
    assert!(g.pending_governance.is_none());
    g.set_governance(&at("gov", 2000), addr("gov2")).unwrap();
    g.accept_governance(&at("gov2", 2000)).unwrap();
    assert_eq!(g.governance, Some(addr("gov2")));
}
