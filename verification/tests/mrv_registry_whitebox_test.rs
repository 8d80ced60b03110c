use mrv_drwa::env::BlockchainEnv;
use mrv_drwa::mrv_common::MrvGovernanceModule;
use mrv_drwa::registry::{
    ExecutionBundleCommittedEvent, IssuanceLotRetiredEvent, MethodologyStatusChangedEvent, MrvRegistry, ProjectStatusChangedEvent,
    RegistryState, VerificationCaseCreatedEvent, VerificationStatementSubmittedEvent, VerifierAdjustmentSubmittedEvent,
};

const REPORT_ID: &[u8] = b"report-public-001";
const TENANT_ID: &[u8] = b"tenant-public-001";
const FARM_ID: &[u8] = b"farm-public-001";
const SEASON_ID: &[u8] = b"season-public-001";
const PROJECT_ID: &[u8] = b"project-public-001";
const REPORT_HASH: &[u8] = b"sha256:report-public-001";
const HASH_ALGO: &[u8] = b"sha256";
const CANONICALIZATION: &[u8] = b"json-c14n-v1";
const EVIDENCE_MANIFEST_HASH: &[u8] = b"sha3-256:evidence-manifest-001";
const METHODOLOGY_ID: &[u8] = b"INT-EN-SOLAR-001";
const METHODOLOGY_VERSION: &[u8] = b"1.0.0";
const METHODOLOGY_DIGEST: &[u8] = b"sha256:methodology-pack-001";
const METHODOLOGY_STATUS: &[u8] = b"ready_for_review";
const EVIDENCE_ID: &[u8] = b"evidence-001";
const EVIDENCE_HASH: &[u8] = b"sha256:evidence-001";
const VERIFICATION_CASE_ID: &[u8] = b"verification-001";
const LOT_ID: &[u8] = b"lot-001";

/// A 32-byte test address: the name padded with underscores.
fn addr(name: &str) -> Vec<u8> {
    let mut a = name.as_bytes().to_vec();
    a.resize(32, b'_');
    a
}

fn call(caller: &str) -> BlockchainEnv {
    BlockchainEnv {
        caller: addr(caller),
        owner: addr("owner"),
        contract: addr("mrv-registry"),
        block_round: 0,
        block_epoch: 0,
        block_timestamp: 0,
    }
}

fn deploy(governance: &str) -> RegistryState {
    RegistryState::init(&call("owner"), addr(governance)).unwrap()
}

#[allow(clippy::too_many_arguments)]
fn anchor(
    sc: &mut RegistryState,
    caller: &str,
    report_id: &[u8],
    season: &[u8],
    project: &[u8],
    report_hash: &[u8],
    methodology_version: u64,
    anchored_at: u64,
    manifest: &[u8],
) -> Result<(), &'static str> {
    sc.anchor_report_v2(
        &call(caller),
        report_id.to_vec(),
        TENANT_ID.to_vec(),
        FARM_ID.to_vec(),
        season.to_vec(),
        project.to_vec(),
        report_hash.to_vec(),
        HASH_ALGO.to_vec(),
        CANONICALIZATION.to_vec(),
        methodology_version,
        anchored_at,
        manifest.to_vec(),
    )
    .map(|_| ())
}

fn anchor_default(sc: &mut RegistryState, caller: &str) -> Result<(), &'static str> {
    anchor(sc, caller, REPORT_ID, SEASON_ID, PROJECT_ID, REPORT_HASH, 1, 1_710_720_000, EVIDENCE_MANIFEST_HASH)
}

#[allow(clippy::too_many_arguments)]
fn amend(
    sc: &mut RegistryState,
    season: &[u8],
    project: &[u8],
    report_hash: &[u8],
    manifest: &[u8],
) -> Result<(), &'static str> {
    sc.amend_report_v2(
        &call("governance"),
        REPORT_ID.to_vec(),
        TENANT_ID.to_vec(),
        FARM_ID.to_vec(),
        season.to_vec(),
        project.to_vec(),
        report_hash.to_vec(),
        HASH_ALGO.to_vec(),
        CANONICALIZATION.to_vec(),
        2,
        1_710_720_100,
        manifest.to_vec(),
    )
    .map(|_| ())
}

fn update_case(sc: &mut RegistryState, status: &[u8], statement: &[u8], attestation: &[u8], at: u64) {
    sc.update_verification_case(
        &call("governance"),
        VERIFICATION_CASE_ID.to_vec(),
        status.to_vec(),
        addr("other"),
        statement.to_vec(),
        attestation.to_vec(),
        at,
    )
    .unwrap();
}

fn approve_case(sc: &mut RegistryState) {
    assert_eq!(
        sc.create_verification_case(
            &call("governance"),
            VERIFICATION_CASE_ID.to_vec(),
            b"report".to_vec(),
            REPORT_ID.to_vec(),
            addr("other"),
            1_710_720_000,
        ),
        Ok(VerificationCaseCreatedEvent {
            case_id: VERIFICATION_CASE_ID.to_vec(),
            target_type: b"report".to_vec(),
            target_id: REPORT_ID.to_vec(),
        })
    );
    update_case(sc, b"assigned", b"", b"", 1_710_720_010);
    update_case(sc, b"in_review", b"", b"", 1_710_720_015);
    update_case(sc, b"approved", b"sha256:statement-001", b"drwa-attestation:token-001:verifier", 1_710_720_020);
}

#[test]
fn mrv_registry_whitebox_flow() {
    let mut sc = deploy("governance");
    anchor_default(&mut sc, "governance").unwrap();

    let proof = sc.get_report_proof(REPORT_ID).unwrap();
    assert_eq!(proof.report_id.as_slice(), REPORT_ID);
    assert_eq!(proof.public_tenant_id.as_slice(), TENANT_ID);
    assert_eq!(proof.public_farm_id.as_slice(), FARM_ID);
    assert_eq!(proof.public_season_id.as_slice(), SEASON_ID);
    assert_eq!(proof.public_project_id.as_slice(), PROJECT_ID);
    assert_eq!(proof.report_hash.as_slice(), REPORT_HASH);
    assert_eq!(proof.hash_algo.as_slice(), HASH_ALGO);
    assert_eq!(proof.canonicalization.as_slice(), CANONICALIZATION);
    assert_eq!(proof.methodology_version, 1);
    assert_eq!(proof.anchored_at, 1_710_720_000);
    assert_eq!(proof.evidence_manifest_hash.as_slice(), EVIDENCE_MANIFEST_HASH);

    let season_proof = sc.get_report_proof_by_season(TENANT_ID, FARM_ID, SEASON_ID).unwrap();
    assert_eq!(season_proof.report_hash, proof.report_hash);
    assert_eq!(season_proof.evidence_manifest_hash, proof.evidence_manifest_hash);

    let season_report_id = sc.get_report_id_by_season(TENANT_ID, FARM_ID, SEASON_ID).unwrap();
    assert_eq!(season_report_id.as_slice(), REPORT_ID);
    assert!(sc.is_report_anchored(REPORT_ID));
    assert_eq!(sc.get_anchored_reports_count(), 1usize);
}

#[test]
fn mrv_registry_idempotent_anchor_keeps_single_entry() {
    let mut sc = deploy("governance");
    for _ in 0..2 {
        anchor_default(&mut sc, "governance").unwrap();
    }
    assert_eq!(sc.get_anchored_reports_count(), 1usize);
    let proof = sc.get_report_proof(REPORT_ID).unwrap();
    assert_eq!(proof.report_hash.as_slice(), REPORT_HASH);
    assert_eq!(proof.evidence_manifest_hash.as_slice(), EVIDENCE_MANIFEST_HASH);
}

#[test]
fn mrv_registry_rejects_conflicting_anchor_payload() {
    let mut sc = deploy("governance");
    anchor_default(&mut sc, "governance").unwrap();
    assert_eq!(
        anchor(
            &mut sc,
            "governance",
            REPORT_ID,
            SEASON_ID,
            PROJECT_ID,
            b"sha256:conflicting-report",
            1,
            1_710_720_000,
            EVIDENCE_MANIFEST_HASH
        ),
        Err("conflicting report proof")
    );
}

#[test]
fn mrv_registry_allows_governance_to_anchor_after_acceptance() {
    let mut sc = deploy("owner");
    sc.gov.set_governance(&call("owner"), addr("governance")).unwrap();
    sc.gov.accept_governance(&call("governance")).unwrap();
    anchor_default(&mut sc, "governance").unwrap();
    assert_eq!(sc.gov.governance, Some(addr("governance")));
    assert!(sc.gov.pending_governance.is_none());
    assert!(sc.is_report_anchored(REPORT_ID));
}

#[test]
fn mrv_registry_tracks_methodology_records_and_status_changes() {
    let mut sc = deploy("governance");
    sc.register_methodology(
        &call("governance"),
        METHODOLOGY_ID.to_vec(),
        METHODOLOGY_VERSION.to_vec(),
        METHODOLOGY_DIGEST.to_vec(),
        METHODOLOGY_STATUS.to_vec(),
        1_735_689_600,
        0,
    )
    .unwrap();
    assert_eq!(
        sc.set_methodology_approval_status(
            &call("governance"),
            METHODOLOGY_ID.to_vec(),
            METHODOLOGY_VERSION.to_vec(),
            b"approved_internal".to_vec(),
        ),
        Ok(MethodologyStatusChangedEvent {
            methodology_id: METHODOLOGY_ID.to_vec(),
            version_label: METHODOLOGY_VERSION.to_vec(),
            approval_status: b"approved_internal".to_vec(),
        })
    );
    let record = sc.get_methodology_record(METHODOLOGY_ID, METHODOLOGY_VERSION).unwrap();
    assert_eq!(record.methodology_id.as_slice(), METHODOLOGY_ID);
    assert_eq!(record.version_label.as_slice(), METHODOLOGY_VERSION);
    assert_eq!(record.pack_digest.as_slice(), METHODOLOGY_DIGEST);
    assert_eq!(record.approval_status.as_slice(), b"approved_internal");
    assert_eq!(sc.get_methodology_records_count(), 1usize);
}

#[test]
fn mrv_registry_supersedes_methodology_record() {
    let mut sc = deploy("governance");
    sc.register_methodology(
        &call("governance"),
        METHODOLOGY_ID.to_vec(),
        METHODOLOGY_VERSION.to_vec(),
        METHODOLOGY_DIGEST.to_vec(),
        b"approved_internal".to_vec(),
        1_735_689_600,
        0,
    )
    .unwrap();
    sc.supersede_methodology(
        &call("governance"),
        METHODOLOGY_ID.to_vec(),
        METHODOLOGY_VERSION.to_vec(),
        b"1.1.0".to_vec(),
        1_767_225_600,
    )
    .unwrap();
    let record = sc.get_methodology_record(METHODOLOGY_ID, METHODOLOGY_VERSION).unwrap();
    assert_eq!(record.approval_status.as_slice(), b"superseded");
    assert_eq!(record.superseded_by.as_slice(), b"1.1.0");
    assert_eq!(record.effective_to, 1_767_225_600);
}

#[test]
fn mrv_registry_tracks_project_and_evidence_records() {
    let mut sc = deploy("governance");
    sc.register_project(
        &call("governance"),
        PROJECT_ID.to_vec(),
        TENANT_ID.to_vec(),
        b"asset-001".to_vec(),
        SEASON_ID.to_vec(),
        METHODOLOGY_ID.to_vec(),
        b"active".to_vec(),
    )
    .unwrap();
    sc.register_evidence(
        &call("governance"),
        EVIDENCE_ID.to_vec(),
        b"report".to_vec(),
        REPORT_ID.to_vec(),
        EVIDENCE_HASH.to_vec(),
        EVIDENCE_MANIFEST_HASH.to_vec(),
        1_710_720_000,
    )
    .unwrap();
    let project = sc.get_project_record(PROJECT_ID).unwrap();
    assert_eq!(project.tenant_id.as_slice(), TENANT_ID);
    assert_eq!(project.reporting_period_id.as_slice(), SEASON_ID);
    assert_eq!(sc.get_project_records_count(), 1usize);
    let evidence = sc.get_evidence_record(EVIDENCE_ID).unwrap();
    assert_eq!(evidence.evidence_hash.as_slice(), EVIDENCE_HASH);
    assert_eq!(evidence.manifest_hash.as_slice(), EVIDENCE_MANIFEST_HASH);
    assert_eq!(sc.get_evidence_records_count(), 1usize);
}

#[test]
fn mrv_registry_tracks_verification_case_transitions() {
    let mut sc = deploy("governance");
    approve_case(&mut sc);
    let case_record = sc.get_verification_case(VERIFICATION_CASE_ID).unwrap();
    assert_eq!(case_record.status.as_slice(), b"approved");
    assert_eq!(case_record.verifier_statement_hash.as_slice(), b"sha256:statement-001");
    assert_eq!(sc.get_verification_cases_count(), 1usize);
}

#[test]
fn mrv_registry_tracks_issuance_lifecycle() {
    let mut sc = deploy("governance");
    approve_case(&mut sc);
    sc.create_issuance_lot(
        &call("governance"),
        LOT_ID.to_vec(),
        PROJECT_ID.to_vec(),
        VERIFICATION_CASE_ID.to_vec(),
        2026,
        b"10.5000".to_vec(),
        Vec::new(),
    )
    .unwrap();
    assert_eq!(sc.retire_issuance_lot(&call("governance"), LOT_ID.to_vec()), Ok(IssuanceLotRetiredEvent { lot_id: LOT_ID.to_vec() }));
    sc.reverse_issuance_lot(&call("governance"), LOT_ID.to_vec(), b"2.0000".to_vec(), b"lot-002".to_vec()).unwrap();
    let lot = sc.get_issuance_lot(LOT_ID).unwrap();
    assert_eq!(lot.status.as_slice(), b"reversed");
    assert_eq!(lot.vintage, 2026);
    assert_eq!(lot.quantity.as_slice(), b"10.5000");
    assert_eq!(lot.reversed_amount.as_slice(), b"2.0000");
    assert!(lot.replacement_for_lot_id.is_empty());
    assert_eq!(sc.get_issuance_lots_count(), 1usize);
}

#[test]
fn mrv_registry_rejects_non_owner_non_governance_anchor() {
    let mut sc = deploy("owner");
    assert_eq!(anchor_default(&mut sc, "other"), Err("caller not authorized"));
}

#[test]
fn mrv_registry_allows_governance_amendment_of_report_proof() {
    let mut sc = deploy("governance");
    anchor_default(&mut sc, "governance").unwrap();
    amend(
        &mut sc,
        b"season-public-001-amended",
        b"project-public-001-amended",
        b"sha256:report-public-001-amended",
        b"sha3-256:evidence-manifest-001-amended",
    )
    .unwrap();
    let proof = sc.get_report_proof(REPORT_ID).unwrap();
    assert_eq!(proof.public_season_id.as_slice(), b"season-public-001-amended");
    assert_eq!(proof.public_project_id.as_slice(), b"project-public-001-amended");
    assert_eq!(proof.methodology_version, 2);
    assert_eq!(proof.anchored_at, 1_710_720_100);
    assert_eq!(proof.evidence_manifest_hash.as_slice(), b"sha3-256:evidence-manifest-001-amended");
    assert!(sc.get_report_id_by_season(TENANT_ID, FARM_ID, b"season-public-001-amended").is_some());
    assert!(sc.get_report_id_by_season(TENANT_ID, FARM_ID, SEASON_ID).is_none());
}

#[test]
fn mrv_registry_rejects_amendment_into_existing_season_binding() {
    let mut sc = deploy("governance");
    anchor_default(&mut sc, "governance").unwrap();
    anchor(
        &mut sc,
        "governance",
        b"report-public-002",
        b"season-public-002",
        b"project-public-002",
        b"sha256:report-public-002",
        1,
        1_710_720_010,
        b"sha3-256:evidence-manifest-002",
    )
    .unwrap();
    assert_eq!(
        amend(
            &mut sc,
            b"season-public-002",
            b"project-public-001-amended",
            b"sha256:report-public-001-amended",
            b"sha3-256:evidence-manifest-001-amended",
        ),
        Err("season already bound to a different report")
    );
}

fn commit_bundle(sc: &mut RegistryState, pai: &[u8], cid: &[u8], hash: &[u8]) -> Result<ExecutionBundleCommittedEvent, &'static str> {
    sc.commit_execution_bundle(&call("governance"), pai.to_vec(), 1, cid.to_vec(), hash.to_vec())
}

#[test]
fn mrv_registry_commit_execution_bundle_rs() {
    let mut sc = deploy("governance");
    assert_eq!(
        commit_bundle(&mut sc, b"pai-bundle-001", b"bafybundle001", &[0xAAu8; 32]),
        Ok(ExecutionBundleCommittedEvent {
            pai_id: b"pai-bundle-001".to_vec(),
            bundle_cid: b"bafybundle001".to_vec(),
            bundle_hash: vec![0xAAu8; 32],
        })
    );
    let bundle = sc.get_execution_bundle(b"pai-bundle-001", 1).unwrap();
    assert_eq!(bundle.pai_id.as_slice(), b"pai-bundle-001");
    assert_eq!(bundle.monitoring_period_n, 1);
    assert_eq!(bundle.bundle_cid.as_slice(), b"bafybundle001");
    assert_eq!(bundle.bundle_hash.len(), 32);
}

#[test]
fn mrv_registry_submit_verification_statement_rs() {
    let mut sc = deploy("governance");
    sc.register_accredited_vvb(&call("governance"), addr("vvb-address")).unwrap();
    commit_bundle(&mut sc, b"pai-stmt-001", b"bafybundle-stmt-001", &[0xBBu8; 32]).unwrap();
    assert_eq!(
        sc.submit_verification_statement(
            &call("governance"),
            b"pai-stmt-001".to_vec(),
            1,
            addr("vvb-address"),
            b"bafystmt001".to_vec(),
            b"approved".to_vec(),
        ),
        Ok(VerificationStatementSubmittedEvent {
            pai_id: b"pai-stmt-001".to_vec(),
            vvb_did: addr("vvb-address"),
            statement_cid: b"bafystmt001".to_vec(),
            outcome: b"approved".to_vec(),
        })
    );
    let stmt = sc.get_verification_statement(b"pai-stmt-001", 1).unwrap();
    assert_eq!(stmt.vvb_did, addr("vvb-address"));
    assert_eq!(stmt.outcome.as_slice(), b"approved");
}

#[test]
fn mrv_registry_register_and_deregister_vvb_rs() {
    let mut sc = deploy("governance");
    sc.register_accredited_vvb(&call("governance"), addr("vvb-address")).unwrap();
    assert!(sc.is_vvb_accredited(&addr("vvb-address")));
    sc.deregister_accredited_vvb(&call("governance"), addr("vvb-address")).unwrap();
    assert!(!sc.is_vvb_accredited(&addr("vvb-address")));
}

#[test]
fn mrv_registry_submit_verifier_adjustment_rs() {
    let mut sc = deploy("governance");
    sc.register_accredited_vvb(&call("governance"), addr("vvb-address")).unwrap();
    commit_bundle(&mut sc, b"pai-adj-001", b"bafybundle-adj-001", &[0xCCu8; 32]).unwrap();
    sc.submit_verification_statement(
        &call("governance"),
        b"pai-adj-001".to_vec(),
        1,
        addr("vvb-address"),
        b"bafystmt-adj-001".to_vec(),
        b"approved".to_vec(),
    )
    .unwrap();
    assert_eq!(
        sc.submit_verifier_adjustment(&call("governance"), b"pai-adj-001".to_vec(), 1, b"bafyadjustment001".to_vec()),
        Ok(VerifierAdjustmentSubmittedEvent { pai_id: b"pai-adj-001".to_vec(), adjustment_cid: b"bafyadjustment001".to_vec() })
    );
    assert_eq!(sc.get_verifier_adjustment_count(b"pai-adj-001", 1), 1);
}

#[test]
fn mrv_registry_submit_statement_unaccredited_vvb_fails_rs() {
    let mut sc = deploy("governance");
    commit_bundle(&mut sc, b"pai-unaccredited-001", b"bafybundle-ua-001", &[0xDDu8; 32]).unwrap();
    assert_eq!(
        sc.submit_verification_statement(
            &call("governance"),
            b"pai-unaccredited-001".to_vec(),
            1,
            addr("vvb-address"),
            b"bafystmt-ua-001".to_vec(),
            b"approved".to_vec(),
        ),
        Err("VVB_NOT_ACCREDITED: vvb_did must be registered via registerAccreditedVvb")
    );
}

#[test]
fn mrv_registry_commit_bundle_wrong_hash_length_fails_rs() {
    let mut sc = deploy("governance");
    assert_eq!(
        commit_bundle(&mut sc, b"pai-badhash-001", b"bafybundle-bh-001", &[0xEEu8; 16]),
        Err("bundle_hash must be 32 bytes (SHA-256)")
    );
}

#[test]
fn mrv_registry_set_project_status_rs() {
    let mut sc = deploy("governance");
    sc.register_project(
        &call("owner"),
        b"PRJ-001".to_vec(),
        b"tenant-1".to_vec(),
        b"asset-1".to_vec(),
        b"period-1".to_vec(),
        b"VM0042".to_vec(),
        b"pending".to_vec(),
    )
    .unwrap();
    assert_eq!(
        sc.set_project_status(&call("owner"), b"PRJ-001".to_vec(), b"active".to_vec()),
        Ok(ProjectStatusChangedEvent { project_id: b"PRJ-001".to_vec(), status: b"active".to_vec() })
    );
    let record = sc.get_project_record(b"PRJ-001").expect("project record should exist");
    assert_eq!(record.status, b"active".to_vec());
}

#[test]
fn mrv_registry_set_project_status_by_governance_refuses_strangers() {
    let mut sc = deploy("governance");
    sc.register_project(
        &call("governance"),
        b"PRJ-001".to_vec(),
        b"tenant-1".to_vec(),
        b"asset-1".to_vec(),
        b"period-1".to_vec(),
        b"VM0042".to_vec(),
        b"pending".to_vec(),
    )
    .unwrap();
    assert_eq!(
        sc.set_project_status(&call("stranger"), b"PRJ-001".to_vec(), b"active".to_vec()),
        Err("caller not authorized")
    );
    sc.set_project_status(&call("governance"), b"PRJ-001".to_vec(), b"active".to_vec()).unwrap();
    assert_eq!(sc.get_project_record(b"PRJ-001").unwrap().status, b"active".to_vec());
}
