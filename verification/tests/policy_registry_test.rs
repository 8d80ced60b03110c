use mrv_drwa::drwa_common::{
    DrwaCallerDomain, DrwaGovernanceEvent, DrwaGovernanceModule, DrwaSyncOperationType, DrwaTokenPolicy,
};
use mrv_drwa::env::BlockchainEnv;
use mrv_drwa::policy_registry::{serialize_policy_json, DrwaPolicyRegistry, PolicyRegistryEvent, PolicyRegistryState};

const TOKEN: &[u8] = b"CARBON-ab12cd";
const CID_V0: &[u8] = b"QmYwAPJzv5CZsnA625s3Xf2nemtYgPpHdWEz79ojWnPbdG";

/// A 32-byte test address: the name padded with underscores.
fn addr(name: &str) -> Vec<u8> {
    let mut a = name.as_bytes().to_vec();
    a.resize(32, b'_');
    a
}

fn call(caller: &str) -> BlockchainEnv {
    BlockchainEnv {
        caller: addr(caller),
        owner: addr("owner"),
        contract: addr("drwa-policy-registry"),
        block_round: 0,
        block_epoch: 0,
        block_timestamp: 0,
    }
}

fn deploy() -> PolicyRegistryState {
    PolicyRegistryState::init(&call("owner"), addr("governance")).unwrap()
}

fn keys(list: &[&str]) -> Vec<Vec<u8>> {
    list.iter().map(|k| k.as_bytes().to_vec()).collect()
}

fn set_policy(
    sc: &mut PolicyRegistryState,
    caller: &str,
    classes: &[&str],
    jurisdictions: &[&str],
) -> Result<mrv_drwa::drwa_common::DrwaSyncEnvelope, &'static str> {
    sc.set_token_policy(&call(caller), TOKEN.to_vec(), true, false, true, false, keys(classes), keys(jurisdictions), 0)
        .map(|(_, envelope)| envelope)
}

#[test]
fn init_refuses_zero_governance() {
    assert_eq!(
        PolicyRegistryState::init(&call("owner"), vec![0u8; 32]).err(),
        Some("governance must not be zero")
    );
    assert_eq!(deploy().get_storage_version(), 1);
}

#[test]
fn policy_json_has_the_documented_shape() {
    let policy = DrwaTokenPolicy {
        drwa_enabled: true,
        global_pause: false,
        strict_auditor_mode: true,
        metadata_protection_enabled: false,
        token_policy_version: 9,
        allowed_investor_classes: keys(&["accredited", "retail.eu"]),
        allowed_jurisdictions: keys(&["SG"]),
    };
    let body = serialize_policy_json(&policy).unwrap();
    assert_eq!(
        String::from_utf8(body).unwrap(),
        "{\"drwa_enabled\":true,\"global_pause\":false,\"strict_auditor_mode\":true,\
\"metadata_protection_enabled\":false,\"allowed_investor_classes\":{\"accredited\":true,\"retail.eu\":true},\
\"allowed_jurisdictions\":{\"SG\":true}}"
    );
}

#[test]
fn policy_json_omits_empty_allow_lists() {
    let policy = DrwaTokenPolicy {
        drwa_enabled: false,
        global_pause: true,
        strict_auditor_mode: false,
        metadata_protection_enabled: true,
        token_policy_version: 1,
        allowed_investor_classes: Vec::new(),
        allowed_jurisdictions: Vec::new(),
    };
    assert_eq!(
        String::from_utf8(serialize_policy_json(&policy).unwrap()).unwrap(),
        "{\"drwa_enabled\":false,\"global_pause\":true,\"strict_auditor_mode\":false,\"metadata_protection_enabled\":true}"
    );
}

#[test]
fn policy_keys_must_be_json_safe() {
    let mut sc = deploy();
    assert_eq!(set_policy(&mut sc, "owner", &["ok", ""], &[]).err(), Some("policy key must not be empty"));
    assert_eq!(
        set_policy(&mut sc, "owner", &["ok"], &["S\"G"]).err(),
        Some("policy key contains unsupported character")
    );
    // Nothing was stored by the refused calls.
    assert!(sc.get_token_policy(TOKEN).is_none());
    assert_eq!(sc.get_token_policy_version(TOKEN), 0);
}

#[test]
fn set_token_policy_versions_and_syncs() {
    let mut sc = deploy();
    let e1 = set_policy(&mut sc, "governance", &["accredited"], &["SG"]).unwrap();
    assert!(e1.caller_domain == DrwaCallerDomain::PolicyRegistry);
    assert_eq!(e1.operations.len(), 1);
    let op = &e1.operations[0];
    assert!(op.operation_type == DrwaSyncOperationType::TokenPolicy);
    assert_eq!(op.token_id, TOKEN.to_vec());
    assert_eq!(op.holder, vec![0u8; 32]);
    assert_eq!(op.version, 1);
    assert_eq!(e1.payload_hash.len(), 32);

    let (ev2, e2) = sc
        .set_token_policy(&call("owner"), TOKEN.to_vec(), true, true, false, true, Vec::new(), Vec::new(), 0)
        .unwrap();
    assert_eq!(
        ev2,
        PolicyRegistryEvent::TokenPolicy {
            token_id: TOKEN.to_vec(),
            drwa_enabled: true,
            global_pause: true,
            strict_auditor_mode: false,
            token_policy_version: 2,
        }
    );
    assert_eq!(e2.operations[0].version, 2);
    let stored = sc.get_token_policy(TOKEN).unwrap();
    assert_eq!(stored.token_policy_version, 2);
    assert!(stored.allowed_investor_classes.is_empty());
    assert_eq!(sc.get_token_policy_version(TOKEN), 2);
}

#[test]
fn set_token_policy_checks_caller_token_and_list_sizes() {
    let mut sc = deploy();
    assert_eq!(set_policy(&mut sc, "other", &[], &[]).err(), Some("caller not authorized"));
    assert_eq!(
        sc.set_token_policy(&call("owner"), b"bad".to_vec(), true, false, false, false, Vec::new(), Vec::new(), 0).err(),
        Some("token_id is too short")
    );
    let too_many_classes: Vec<Vec<u8>> = (0..101).map(|i| format!("c{i}").into_bytes()).collect();
    assert_eq!(
        sc.set_token_policy(&call("owner"), TOKEN.to_vec(), true, false, false, false, too_many_classes, Vec::new(), 0).err(),
        Some("too many investor classes: max 100")
    );
    let too_many_jurisdictions: Vec<Vec<u8>> = (0..201).map(|i| format!("j{i}").into_bytes()).collect();
    assert_eq!(
        sc.set_token_policy(&call("owner"), TOKEN.to_vec(), true, false, false, false, Vec::new(), too_many_jurisdictions, 0)
            .err(),
        Some("too many jurisdictions: max 200")
    );
    let hundred: Vec<Vec<u8>> = (0..100).map(|i| format!("c{i}").into_bytes()).collect();
    assert!(sc.set_token_policy(&call("owner"), TOKEN.to_vec(), true, false, false, false, hundred, Vec::new(), 0).is_ok());
}

#[test]
fn deactivate_turns_the_policy_off_at_the_next_version() {
    let mut sc = deploy();
    assert_eq!(
        sc.deactivate_token_policy(&call("owner"), TOKEN.to_vec(), 0).err(),
        Some("token policy does not exist")
    );
    set_policy(&mut sc, "owner", &["accredited"], &[]).unwrap();
    let (ev, e) = sc.deactivate_token_policy(&call("owner"), TOKEN.to_vec(), 0).unwrap();
    assert_eq!(
        ev,
        PolicyRegistryEvent::TokenPolicy {
            token_id: TOKEN.to_vec(),
            drwa_enabled: false,
            global_pause: false,
            strict_auditor_mode: true,
            token_policy_version: 2,
        }
    );
    assert_eq!(e.operations[0].version, 2);
    let body = String::from_utf8(e.operations[0].body.clone()).unwrap();
    assert!(body.starts_with("{\"drwa_enabled\":false,\"global_pause\":false,\"strict_auditor_mode\":true"));
    assert!(body.ends_with(",\"allowed_investor_classes\":{\"accredited\":true}}"));
    let stored = sc.get_token_policy(TOKEN).unwrap();
    assert!(!stored.drwa_enabled);
    assert!(stored.strict_auditor_mode);
    assert_eq!(stored.token_policy_version, 2);
}

#[test]
fn white_paper_cid_rules() {
    let mut sc = deploy();
    let cid = |c: &[u8], sc: &mut PolicyRegistryState| sc.set_white_paper_cid(&call("owner"), TOKEN.to_vec(), c.to_vec(), 0).err();
    assert_eq!(cid(b"", &mut sc), Some("white paper CID is required"));
    assert_eq!(cid(b"QmShort", &mut sc), Some("invalid CID length: must be 46-64 characters"));
    let mut wrong_prefix = CID_V0.to_vec();
    wrong_prefix[0] = b'X';
    assert_eq!(cid(&wrong_prefix, &mut sc), Some("CID must start with Qm (v0) or bafy (v1)"));
    let mut bad_byte = CID_V0.to_vec();
    bad_byte[10] = b'"';
    assert_eq!(
        cid(&bad_byte, &mut sc),
        Some("CID contains invalid byte: only alphanumeric characters (a-z, A-Z, 0-9) allowed")
    );
    assert_eq!(sc.get_white_paper_cid(TOKEN), Vec::<u8>::new());
}

#[test]
fn white_paper_cid_is_synced_with_a_blank_policy() {
    let mut sc = deploy();
    let (ev, e) = sc.set_white_paper_cid(&call("governance"), TOKEN.to_vec(), CID_V0.to_vec(), 0).unwrap();
    assert_eq!(ev, PolicyRegistryEvent::WhitePaperCidSet { token_id: TOKEN.to_vec(), cid: CID_V0.to_vec() });
    assert_eq!(e.operations[0].version, 1);
    assert_eq!(
        String::from_utf8(e.operations[0].body.clone()).unwrap(),
        format!(
            "{{\"drwa_enabled\":false,\"global_pause\":false,\"strict_auditor_mode\":false,\
\"metadata_protection_enabled\":false,\"white_paper_cid\":\"{}\"}}",
            String::from_utf8(CID_V0.to_vec()).unwrap()
        )
    );
    assert_eq!(sc.get_white_paper_cid(TOKEN), CID_V0.to_vec());
    assert_eq!(sc.get_token_policy_version(TOKEN), 1);
    // The policy itself is not created by a MiCA update.
    assert!(sc.get_token_policy(TOKEN).is_none());
}

#[test]
fn registration_status_is_synced_with_the_stored_policy() {
    let mut sc = deploy();
    set_policy(&mut sc, "owner", &[], &["SG"]).unwrap();
    assert_eq!(
        sc.set_registration_status(&call("owner"), TOKEN.to_vec(), b"pending".to_vec(), 0).err(),
        Some("invalid registration status: must be draft, submitted, approved, rejected, or withdrawn")
    );
    let (ev, e) = sc.set_registration_status(&call("owner"), TOKEN.to_vec(), b"submitted".to_vec(), 0).unwrap();
    assert_eq!(ev, PolicyRegistryEvent::RegistrationStatusSet { token_id: TOKEN.to_vec(), status: b"submitted".to_vec() });
    assert_eq!(e.operations[0].version, 2);
    assert_eq!(
        String::from_utf8(e.operations[0].body.clone()).unwrap(),
        "{\"drwa_enabled\":true,\"global_pause\":false,\"strict_auditor_mode\":true,\"metadata_protection_enabled\":false,\
\"allowed_jurisdictions\":{\"SG\":true},\"registration_status\":\"submitted\"}"
    );
    assert_eq!(sc.get_registration_status(TOKEN), b"submitted".to_vec());
    assert_eq!(sc.get_registration_status(b"OTHER-ab12cd"), Vec::<u8>::new());
}

#[test]
fn governance_handover_of_the_policy_registry() {
    let mut sc = deploy();
    assert_eq!(
        sc.gov.set_governance(&call("owner"), addr("next")),
        Ok(DrwaGovernanceEvent::Proposed { governance: addr("next") })
    );
    assert_eq!(sc.gov.accept_governance(&call("other")), Err("caller not pending governance"));
    assert_eq!(sc.gov.accept_governance(&call("next")), Ok(DrwaGovernanceEvent::Accepted { governance: addr("next") }));
    assert!(set_policy(&mut sc, "next", &[], &[]).is_ok());
    assert_eq!(sc.gov.revoke_governance(&call("owner")), Ok(DrwaGovernanceEvent::Revoked { previous: addr("next") }));
    assert_eq!(sc.gov.revoke_governance(&call("owner")), Ok(DrwaGovernanceEvent::Revoked { previous: vec![0u8; 32] }));
    assert_eq!(set_policy(&mut sc, "next", &[], &[]).err(), Some("caller not authorized"));
    assert!(set_policy(&mut sc, "owner", &[], &[]).is_ok());
}

#[test]
fn a_failed_mirror_sync_leaves_the_policy_registry_unchanged() {
    let mut sc = deploy();
    assert_eq!(
        sc.set_token_policy(&call("owner"), TOKEN.to_vec(), true, false, true, false, Vec::new(), Vec::new(), 3).err(),
        Some("native mirror sync failed")
    );
    assert!(sc.get_token_policy(TOKEN).is_none());
    assert_eq!(sc.get_token_policy_version(TOKEN), 0);
    set_policy(&mut sc, "owner", &[], &[]).unwrap();
    assert_eq!(
        sc.set_registration_status(&call("owner"), TOKEN.to_vec(), b"submitted".to_vec(), 1).err(),
        Some("native mirror sync failed")
    );
    assert_eq!(sc.get_token_policy_version(TOKEN), 1);
    assert!(sc.get_registration_status(TOKEN).is_empty());
}
