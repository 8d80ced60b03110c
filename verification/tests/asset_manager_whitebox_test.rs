use mrv_drwa::asset_manager::{is_already_registered_refusal, AssetManagerEvent, AssetManagerState, DrwaAssetManager};
use mrv_drwa::drwa_common::{DrwaCallerDomain, DrwaGovernanceModule, DrwaSyncOperationType};
use mrv_drwa::env::BlockchainEnv;

const TOKEN_ID_1: &[u8] = b"HOTEL-ab12cd";
const TOKEN_ID_2: &[u8] = b"HOTEL-bc23de";

/// A 32-byte test address: the name padded with underscores.
fn addr(name: &str) -> Vec<u8> {
    let mut a = name.as_bytes().to_vec();
    a.resize(32, b'_');
    a
}

fn call(caller: &str, round: u64) -> BlockchainEnv {
    BlockchainEnv {
        caller: addr(caller),
        owner: addr("owner"),
        contract: addr("drwa-asset-manager"),
        block_round: round,
        block_epoch: 0,
        block_timestamp: 0,
    }
}

fn deploy(governance: &str) -> AssetManagerState {
    AssetManagerState::init(&call("owner", 0), addr(governance)).unwrap()
}

fn register(sc: &mut AssetManagerState, caller: &str, token_id: &[u8], policy_id: &[u8]) {
    sc.register_asset(
        &call(caller, 0),
        token_id.to_vec(),
        b"ESDT".to_vec(),
        b"Hospitality".to_vec(),
        policy_id.to_vec(),
        0,
    )
    .unwrap();
}

#[allow(clippy::too_many_arguments)]
fn sync_holder(
    sc: &mut AssetManagerState,
    caller: &str,
    token_id: &[u8],
    holder: Vec<u8>,
    expiry_round: u64,
    transfer_locked: bool,
) -> Result<mrv_drwa::drwa_common::DrwaSyncEnvelope, &'static str> {
    sc.sync_holder_compliance(
        &call(caller, 0),
        token_id.to_vec(),
        holder,
        b"approved".to_vec(),
        b"clear".to_vec(),
        b"accredited".to_vec(),
        b"SG".to_vec(),
        expiry_round,
        transfer_locked,
        false,
        true,
        0,
    )
    .map(|(_, e)| e)
}

#[test]
fn asset_manager_whitebox_flow() {
    let mut sc = deploy("governance");
    register(&mut sc, "owner", TOKEN_ID_1, b"policy-hotel-1");

    let envelope = sync_holder(&mut sc, "owner", TOKEN_ID_1, addr("holder"), 250, false).unwrap();
    assert!(envelope.caller_domain == DrwaCallerDomain::AssetManager);
    assert_eq!(envelope.operations.len(), 1);
    let operation = &envelope.operations[0];
    assert!(operation.operation_type == DrwaSyncOperationType::HolderMirror);
    assert_eq!(operation.version, 1);
    assert!(!envelope.payload_hash.is_empty());

    let asset = sc.get_asset(TOKEN_ID_1).unwrap();
    assert!(asset.regulated);
    assert_eq!(asset.asset_class, b"Hospitality".to_vec());

    let mirror = sc.get_holder_mirror(TOKEN_ID_1, &addr("holder")).unwrap();
    assert_eq!(mirror.holder_policy_version, 1);
    assert_eq!(mirror.kyc_status, b"approved".to_vec());
    assert_eq!(mirror.investor_class, b"accredited".to_vec());
    assert_eq!(sc.holder_policy_version(TOKEN_ID_1, &addr("holder")), 1);
}

#[test]
fn asset_manager_rejects_non_owner_and_increments_holder_version() {
    let mut sc = deploy("governance");
    register(&mut sc, "owner", TOKEN_ID_1, b"policy-hotel-1");

    for version in [1u64, 2u64] {
        let envelope =
            sync_holder(&mut sc, "owner", TOKEN_ID_1, addr("holder"), 250 + version, version == 2).unwrap();
        assert_eq!(envelope.operations[0].version, version);
    }

    let mirror = sc.get_holder_mirror(TOKEN_ID_1, &addr("holder")).unwrap();
    assert_eq!(mirror.holder_policy_version, 2);
    assert!(mirror.transfer_locked);
    assert_eq!(mirror.expiry_round, 252);
}

#[test]
fn asset_manager_allows_governance_to_manage_assets_and_holders() {
    let mut sc = deploy("governance");
    sc.gov.set_governance(&call("owner", 0), addr("governance")).unwrap();
    sc.gov.accept_governance(&call("governance", 0)).unwrap();

    register(&mut sc, "governance", TOKEN_ID_2, b"policy-hotel-2");
    let envelope = sync_holder(&mut sc, "governance", TOKEN_ID_2, addr("holder"), 500, false).unwrap();
    assert_eq!(envelope.operations[0].version, 1);
}

#[test]
fn asset_manager_requires_pending_governance_acceptance() {
    let mut sc = deploy("governance");
    sc.gov.set_governance(&call("owner", 0), addr("governance")).unwrap();
    assert_eq!(sc.gov.pending_governance, Some(addr("governance")));
    assert_eq!(sc.gov.governance, Some(addr("governance")));
}

#[test]
fn asset_manager_rejects_expired_pending_governance_acceptance() {
    let mut sc = deploy("other");
    sc.gov.set_governance(&call("owner", 0), addr("governance")).unwrap();
    assert_eq!(
        sc.gov.accept_governance(&call("governance", 1_001)),
        Err("pending governance acceptance expired")
    );
}

#[test]
fn asset_manager_rejects_invalid_token_id_format() {
    let mut sc = deploy("governance");
    let r = sc.register_asset(
        &call("governance", 0),
        b"HOTEL-001".to_vec(),
        b"ESDT".to_vec(),
        b"Hospitality".to_vec(),
        b"policy-hotel-invalid".to_vec(),
        0,
    );
    assert_eq!(r.err(), Some("token_id suffix must be 6 characters"));
}

#[test]
fn asset_manager_rejects_reregistration_for_same_token() {
    let mut sc = deploy("governance");
    register(&mut sc, "governance", TOKEN_ID_1, b"policy-hotel-1");
    let r = sc.register_asset(
        &call("governance", 0),
        TOKEN_ID_1.to_vec(),
        b"ESDT".to_vec(),
        b"Hospitality".to_vec(),
        b"policy-hotel-2".to_vec(),
        0,
    );
    assert_eq!(r.err(), Some("asset already registered - use an upgrade endpoint to modify"));
}

#[test]
fn asset_manager_rejects_sync_holder_compliance_on_unregistered_asset() {
    let mut sc = deploy("governance");
    let r = sync_holder(&mut sc, "owner", TOKEN_ID_1, addr("holder"), 250, false);
    assert_eq!(r.err(), Some("asset not registered: use registerAsset first"));
}

#[test]
fn asset_manager_rejects_zero_address_holder() {
    let mut sc = deploy("governance");
    register(&mut sc, "owner", TOKEN_ID_1, b"policy-hotel-1");
    let r = sync_holder(&mut sc, "owner", TOKEN_ID_1, vec![0u8; 32], 250, false);
    assert_eq!(r.err(), Some("ZERO_ADDRESS: holder must not be zero"));
}

#[test]
fn asset_manager_update_asset_works() {
    let mut sc = deploy("governance");
    register(&mut sc, "owner", TOKEN_ID_1, b"policy-hotel-1");
    let (event, _) = sc
        .update_asset(&call("owner", 0), TOKEN_ID_1.to_vec(), b"SFT".to_vec(), b"RealEstate".to_vec(), b"policy-hotel-2".to_vec(), 0)
        .unwrap();
    assert_eq!(event, AssetManagerEvent::AssetUpdated { token_id: TOKEN_ID_1.to_vec(), policy_id: b"policy-hotel-2".to_vec() });
    let asset = sc.get_asset(TOKEN_ID_1).unwrap();
    assert_eq!(asset.carrier_type, b"SFT".to_vec());
    assert_eq!(asset.asset_class, b"RealEstate".to_vec());
    assert_eq!(asset.policy_id, b"policy-hotel-2".to_vec());
    assert!(asset.regulated);
}

#[test]
fn asset_manager_update_asset_rejects_unregistered() {
    let mut sc = deploy("governance");
    let r = sc.update_asset(
        &call("owner", 0),
        TOKEN_ID_1.to_vec(),
        b"SFT".to_vec(),
        b"RealEstate".to_vec(),
        b"policy-new".to_vec(),
        0,
    );
    assert_eq!(r.err(), Some("asset not registered: use registerAsset first"));
}

fn wind_down_setup() -> AssetManagerState {
    let mut sc = deploy("governance");
    register(&mut sc, "owner", TOKEN_ID_1, b"policy-hotel-1");
    sc
}

#[test]
fn wind_down_initiate_success() {
    let mut sc = wind_down_setup();
    let (event, envelope) = sc.initiate_wind_down(&call("owner", 0), TOKEN_ID_1.to_vec(), 0).unwrap();
    assert_eq!(event, AssetManagerEvent::WindDownInitiated { token_id: TOKEN_ID_1.to_vec() });
    assert!(envelope.caller_domain == DrwaCallerDomain::AssetManager);
    assert_eq!(envelope.operations.len(), 1);
    assert!(envelope.operations[0].operation_type == DrwaSyncOperationType::AssetRecord);

    assert!(sc.get_asset(TOKEN_ID_1).unwrap().wind_down_initiated);
    assert!(sc.is_wind_down_initiated(TOKEN_ID_1));
}

#[test]
fn wind_down_rejects_double_initiation() {
    let mut sc = wind_down_setup();
    sc.initiate_wind_down(&call("owner", 0), TOKEN_ID_1.to_vec(), 0).unwrap();
    assert_eq!(
        sc.initiate_wind_down(&call("owner", 0), TOKEN_ID_1.to_vec(), 0).err(),
        Some("WIND_DOWN_ALREADY_INITIATED")
    );
}

#[test]
fn wind_down_rejects_unregistered_asset() {
    let mut sc = wind_down_setup();
    assert_eq!(
        sc.initiate_wind_down(&call("owner", 0), TOKEN_ID_2.to_vec(), 0).err(),
        Some("ASSET_NOT_REGISTERED")
    );
}

#[test]
fn wind_down_access_control() {
    let mut sc = wind_down_setup();
    assert_eq!(
        sc.initiate_wind_down(&call("other", 0), TOKEN_ID_1.to_vec(), 0).err(),
        Some("caller not authorized")
    );
}

#[test]
fn wind_down_not_initiated_by_default() {
    let sc = wind_down_setup();
    assert!(!sc.is_wind_down_initiated(TOKEN_ID_1));
    let asset = sc.get_asset(TOKEN_ID_1).unwrap();
    assert!(!asset.wind_down_initiated);
    assert_eq!(asset.wind_down_round, 0);
}

#[test]
fn wind_down_sets_round_and_blocks_holder_sync() {
    let mut sc = wind_down_setup();
    sc.initiate_wind_down(&call("owner", 42), TOKEN_ID_1.to_vec(), 0).unwrap();
    let asset = sc.get_asset(TOKEN_ID_1).unwrap();
    assert!(asset.wind_down_initiated);
    assert_eq!(asset.wind_down_round, 42, "wind_down_round should match the block round at initiation");

    register(&mut sc, "owner", TOKEN_ID_2, b"policy-hotel-2");
    let asset2 = sc.get_asset(TOKEN_ID_2).unwrap();
    assert!(!asset2.wind_down_initiated, "new token should not be in wind-down");
    assert_eq!(asset2.wind_down_round, 0);
}

#[test]
fn wind_down_governance_can_initiate() {
    let mut sc = wind_down_setup();
    sc.gov.set_governance(&call("owner", 0), addr("governance")).unwrap();
    sc.gov.accept_governance(&call("governance", 0)).unwrap();
    let (_, envelope) = sc.initiate_wind_down(&call("governance", 0), TOKEN_ID_1.to_vec(), 0).unwrap();
    assert!(envelope.caller_domain == DrwaCallerDomain::AssetManager);
    assert_eq!(
        sc.initiate_wind_down(&call("governance", 0), TOKEN_ID_1.to_vec(), 0).err(),
        Some("WIND_DOWN_ALREADY_INITIATED")
    );
}

#[test]
fn asset_manager_get_holder_mirror_view() {
    let mut sc = deploy("governance");
    register(&mut sc, "owner", TOKEN_ID_1, b"policy-hotel-1");
    sync_holder(&mut sc, "owner", TOKEN_ID_1, addr("holder"), 250, false).unwrap();
    let mirror = sc.get_holder_mirror(TOKEN_ID_1, &addr("holder")).unwrap();
    assert_eq!(mirror.holder_policy_version, 1);
    assert_eq!(mirror.kyc_status, b"approved".to_vec());
    assert_eq!(mirror.aml_status, b"clear".to_vec());
    assert!(mirror.auditor_authorized);
}

#[test]
fn asset_record_body_is_token_colon_policy() {
    let mut sc = deploy("governance");
    let (event, e) = sc
        .register_asset(&call("owner", 0), TOKEN_ID_1.to_vec(), b"ESDT".to_vec(), b"Hospitality".to_vec(), b"pol-1".to_vec(), 0)
        .unwrap();
    assert_eq!(
        event,
        AssetManagerEvent::AssetRegistered { token_id: TOKEN_ID_1.to_vec(), policy_id: b"pol-1".to_vec(), regulated: true }
    );
    let mut expected = vec![0u8];
    expected.extend_from_slice(b"HOTEL-ab12cd:pol-1");
    assert_eq!(e.operations[0].body, expected);
    assert_eq!(e.operations[0].version, 1);
    assert_eq!(e.operations[0].holder, vec![0u8; 32]);
    assert_eq!(
        sc.register_asset(&call("owner", 0), TOKEN_ID_2.to_vec(), b"ESDT".to_vec(), b"H".to_vec(), b"a:b".to_vec(), 0).err(),
        Some("policy_id must not contain ':'")
    );
}

#[test]
fn wind_down_body_carries_the_round_in_decimal() {
    let mut sc = wind_down_setup();
    let (_, e) = sc.initiate_wind_down(&call("owner", 1_234_567), TOKEN_ID_1.to_vec(), 0).unwrap();
    let mut expected = vec![1u8];
    expected.extend_from_slice(b"{\"wind_down_initiated\":true,\"wind_down_round\":1234567,\"global_transfer_lock\":true}");
    assert_eq!(e.operations[0].body, expected);
    // Registration was version 1; the wind-down is version 2.
    assert_eq!(e.operations[0].version, 2);
}

#[test]
fn holder_mirror_body_layout() {
    let mut sc = wind_down_setup();
    let e = sync_holder(&mut sc, "owner", TOKEN_ID_1, addr("holder"), 0x0102, true).unwrap();
    let body = &e.operations[0].body;
    let mut expected = vec![0, 0, 0, 0, 0, 0, 0, 1];
    for field in [&b"approved"[..], b"clear", b"accredited", b"SG"] {
        expected.extend_from_slice(&(field.len() as u32).to_be_bytes());
        expected.extend_from_slice(field);
    }
    expected.extend_from_slice(&[0, 0, 0, 0, 0, 0, 1, 2]);
    expected.extend_from_slice(&[1, 0, 1]);
    assert_eq!(body, &expected);
}

#[test]
fn holder_compliance_vocabularies_and_expiry() {
    let mut sc = wind_down_setup();
    let r = sc.sync_holder_compliance(
        &call("owner", 10),
        TOKEN_ID_1.to_vec(),
        addr("holder"),
        b"approved".to_vec(),
        b"clear".to_vec(),
        b"accredited".to_vec(),
        b"SG".to_vec(),
        10,
        false,
        false,
        false,
        0,
    );
    assert_eq!(r.err(), Some("expiry_round must be in the future or 0 for permanent"));
    let r = sc.sync_holder_compliance(
        &call("owner", 10),
        TOKEN_ID_1.to_vec(),
        addr("holder"),
        b"unknown".to_vec(),
        b"clear".to_vec(),
        b"accredited".to_vec(),
        b"SG".to_vec(),
        0,
        false,
        false,
        false,
        0,
    );
    assert_eq!(
        r.err(),
        Some("invalid kyc_status: must be one of approved, pending, rejected, expired, not_started, deactivated")
    );
    let r = sc.sync_holder_compliance(
        &call("owner", 10),
        TOKEN_ID_1.to_vec(),
        addr("holder"),
        b"approved".to_vec(),
        b"clear".to_vec(),
        b"accredited investor".to_vec(),
        b"SG".to_vec(),
        0,
        false,
        false,
        false,
        0,
    );
    assert_eq!(r.err(), Some("investor_class contains invalid characters"));
    assert!(sc.get_holder_mirror(TOKEN_ID_1, &addr("holder")).is_err());
}

#[test]
fn only_the_already_registered_refusal_is_harmless() {
    assert!(is_already_registered_refusal(b"asset already registered - use an upgrade endpoint to modify"));
    assert!(is_already_registered_refusal(b"error: asset already registered"));
    assert!(!is_already_registered_refusal(b"caller not authorized"));
    assert!(!is_already_registered_refusal(b"asset already"));
    assert!(!is_already_registered_refusal(b""));
}

#[test]
fn a_failed_mirror_sync_leaves_the_asset_manager_unchanged() {
    let mut sc = deploy("governance");
    assert_eq!(
        sc.register_asset(&call("owner", 0), TOKEN_ID_1.to_vec(), b"ESDT".to_vec(), b"Hospitality".to_vec(), b"pol-1".to_vec(), 1)
            .err(),
        Some("native mirror sync failed")
    );
    assert!(sc.get_asset(TOKEN_ID_1).is_none());

    register(&mut sc, "owner", TOKEN_ID_1, b"pol-1");
    let refused = sc.sync_holder_compliance(
        &call("owner", 0),
        TOKEN_ID_1.to_vec(),
        addr("holder"),
        b"approved".to_vec(),
        b"clear".to_vec(),
        b"accredited".to_vec(),
        b"SG".to_vec(),
        0,
        false,
        false,
        true,
        -1,
    );
    assert_eq!(refused.err(), Some("native mirror sync failed"));
    assert_eq!(sc.holder_policy_version(TOKEN_ID_1, &addr("holder")), 0);
    assert!(sc.get_holder_mirror(TOKEN_ID_1, &addr("holder")).is_err());

    assert_eq!(sc.initiate_wind_down(&call("owner", 5), TOKEN_ID_1.to_vec(), 7).err(), Some("native mirror sync failed"));
    assert!(!sc.is_wind_down_initiated(TOKEN_ID_1));
    // a validation error still comes first
    assert_eq!(
        sc.initiate_wind_down(&call("owner", 5), TOKEN_ID_2.to_vec(), 7).err(),
        Some("ASSET_NOT_REGISTERED")
    );
}
