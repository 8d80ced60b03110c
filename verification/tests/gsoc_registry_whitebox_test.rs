use mrv_drwa::env::BlockchainEnv;
use mrv_drwa::gsoc_registry::{GsocRegistry, GsocRegistryEvent, GsocRegistryState};
use mrv_drwa::mrv_common::PauseProbe;

/// A 32-byte test address: the name padded with underscores.
fn addr(name: &str) -> Vec<u8> {
    let mut a = name.as_bytes().to_vec();
    a.resize(32, b'_');
    a
}

fn call(caller: &str) -> BlockchainEnv {
    BlockchainEnv {
        caller: addr(caller),
        owner: addr("owner"),
        contract: addr("gsoc-registry"),
        block_round: 0,
        block_epoch: 0,
        block_timestamp: 0,
    }
}

/// No governance-read address and a user-account pause authority: not paused.
const UNPAUSED: PauseProbe = PauseProbe { authority_is_smart_contract: false, governance_paused: false };

fn deploy(governance: &str) -> GsocRegistryState {
    GsocRegistryState::init(&call("owner"), addr(governance)).unwrap()
}

fn reserve(sc: &mut GsocRegistryState, serial: &[u8]) -> bool {
    sc.reserve_serial(&call("owner"), &UNPAUSED, serial.to_vec()).unwrap().0
}

fn register(sc: &mut GsocRegistryState, serial: &[u8], project: &[u8], vintage: u32, quantity: u64) -> Result<GsocRegistryEvent, &'static str> {
    sc.register_serial_batch(
        &call("owner"),
        &UNPAUSED,
        serial.to_vec(),
        project.to_vec(),
        vintage,
        serial.to_vec(),
        serial.to_vec(),
        quantity,
    )
}

/// Retirement is recorded by a registered verifier.
fn retire(sc: &mut GsocRegistryState, serial: &[u8], beneficiary: &[u8], burn: &[u8]) -> Result<GsocRegistryEvent, &'static str> {
    sc.record_retirement(&call("verifier"), &UNPAUSED, serial.to_vec(), beneficiary.to_vec(), addr("owner"), burn.to_vec())
}

fn deploy_with_verifier() -> GsocRegistryState {
    let mut sc = deploy("owner");
    sc.add_verifier(&call("owner"), &UNPAUSED, addr("verifier")).unwrap();
    sc
}

#[test]
fn gsoc_registry_init_rs() {
    let sc = deploy("governance");
    assert_eq!(sc.get_total_supply(), 0);
    assert_eq!(sc.get_total_retired(), 0);
}

#[test]
fn gsoc_registry_reserve_and_register_rs() {
    let mut sc = deploy("owner");
    assert!(reserve(&mut sc, b"KE-DH-00001"));
    assert!(!reserve(&mut sc, b"KE-DH-00001"));
    register(&mut sc, b"KE-DH-00001", b"proj-001", 2026, 1).unwrap();
    assert_eq!(sc.get_total_supply(), 1);
}

#[test]
fn gsoc_registry_whitebox_test_gsoc_registry_cancel_reservation_rs() {
    let mut sc = deploy("owner");
    reserve(&mut sc, b"KE-DH-00002");
    sc.cancel_reservation(&call("owner"), &UNPAUSED, b"KE-DH-00002".to_vec()).unwrap();
    assert!(reserve(&mut sc, b"KE-DH-00002"));
}

#[test]
fn gsoc_registry_verifier_retires_serial() {
    let mut sc = deploy_with_verifier();
    reserve(&mut sc, b"KE-DH-00003");
    register(&mut sc, b"KE-DH-00003", b"proj-001", 2026, 100).unwrap();
    retire(&mut sc, b"KE-DH-00003", b"Acme Corp", b"0xburn123").unwrap();
    assert_eq!(sc.get_total_retired(), 100);
}

#[test]
fn gsoc_registry_retire_serial_rs() {
    let mut sc = deploy("owner");
    reserve(&mut sc, b"KE-DH-00003");
    register(&mut sc, b"KE-DH-00003", b"proj-001", 2026, 100).unwrap();
    sc.record_retirement(&call("owner"), &UNPAUSED, b"KE-DH-00003".to_vec(), b"Acme Corp".to_vec(), addr("owner"), b"0xburn123".to_vec())
        .unwrap();
    assert_eq!(sc.get_total_retired(), 100);
    assert!(sc.is_serial_retired(b"KE-DH-00003"));
}

#[test]
fn gsoc_registry_double_retire_fails_rs() {
    let mut sc = deploy("owner");
    reserve(&mut sc, b"KE-DH-00004");
    register(&mut sc, b"KE-DH-00004", b"proj-001", 2026, 50).unwrap();
    sc.record_retirement(&call("owner"), &UNPAUSED, b"KE-DH-00004".to_vec(), b"Acme".to_vec(), addr("owner"), b"0xburn".to_vec())
        .unwrap();
    assert_eq!(
        sc.record_retirement(&call("owner"), &UNPAUSED, b"KE-DH-00004".to_vec(), b"Other".to_vec(), addr("owner"), b"0xburn2".to_vec()),
        Err("SERIAL_ALREADY_RETIRED")
    );
}

#[test]
fn gsoc_registry_verifier_double_retire_fails() {
    let mut sc = deploy_with_verifier();
    reserve(&mut sc, b"KE-DH-00004");
    register(&mut sc, b"KE-DH-00004", b"proj-001", 2026, 50).unwrap();
    retire(&mut sc, b"KE-DH-00004", b"Acme", b"0xburn").unwrap();
    assert_eq!(retire(&mut sc, b"KE-DH-00004", b"Other", b"0xburn2"), Err("SERIAL_ALREADY_RETIRED"));
}

#[test]
fn gsoc_registry_register_without_reservation_fails_rs() {
    let mut sc = deploy("owner");
    assert_eq!(
        register(&mut sc, b"KE-DH-UNRESERVED", b"proj-001", 2026, 10),
        Err("SERIAL_NOT_RESERVED: call reserveSerial() first")
    );
}

#[test]
fn gsoc_registry_duplicate_registration_fails_rs() {
    let mut sc = deploy("owner");
    reserve(&mut sc, b"KE-DH-DUP01");
    register(&mut sc, b"KE-DH-DUP01", b"proj-001", 2026, 5).unwrap();
    assert!(!reserve(&mut sc, b"KE-DH-DUP01"));
}

#[test]
fn gsoc_registry_cancel_registered_fails_rs() {
    let mut sc = deploy("owner");
    reserve(&mut sc, b"KE-DH-CANC01");
    register(&mut sc, b"KE-DH-CANC01", b"proj-001", 2026, 10).unwrap();
    assert_eq!(
        sc.cancel_reservation(&call("owner"), &UNPAUSED, b"KE-DH-CANC01".to_vec()),
        Err("SERIAL_NOT_RESERVED: cannot cancel a non-reserved serial")
    );
}

#[test]
fn gsoc_registry_vintage_out_of_range_fails_rs() {
    let mut sc = deploy("owner");
    reserve(&mut sc, b"KE-DH-VIN01");
    assert_eq!(register(&mut sc, b"KE-DH-VIN01", b"proj-001", 2019, 1), Err("vintage_year out of range"));
}

#[test]
fn gsoc_registry_project_serial_count_rs() {
    let mut sc = deploy("owner");
    reserve(&mut sc, b"KE-DH-CNT01");
    register(&mut sc, b"KE-DH-CNT01", b"proj-count", 2026, 100).unwrap();
    reserve(&mut sc, b"KE-DH-CNT02");
    register(&mut sc, b"KE-DH-CNT02", b"proj-count", 2026, 200).unwrap();
    assert_eq!(sc.get_project_serials(b"proj-count"), 2);
    assert_eq!(sc.get_total_supply(), 300);
}

#[test]
fn gsoc_registry_retire_unregistered_fails_rs() {
    let mut sc = deploy("owner");
    assert_eq!(
        sc.record_retirement(&call("owner"), &UNPAUSED, b"NONEXISTENT".to_vec(), b"Acme".to_vec(), addr("owner"), b"0xburn".to_vec()),
        Err("serial not registered")
    );
}

#[test]
fn gsoc_registry_verifier_retire_unregistered_fails() {
    let mut sc = deploy_with_verifier();
    assert_eq!(retire(&mut sc, b"NONEXISTENT", b"Acme", b"0xburn"), Err("serial not registered"));
}

#[test]
fn gsoc_registry_retirement_refuses_a_stranger() {
    let mut sc = deploy("governance");
    reserve(&mut sc, b"KE-DH-00005");
    register(&mut sc, b"KE-DH-00005", b"proj-001", 2026, 10).unwrap();
    assert_eq!(
        sc.record_retirement(&call("stranger"), &UNPAUSED, b"KE-DH-00005".to_vec(), b"Acme".to_vec(), addr("owner"), b"0x".to_vec()),
        Err("VERIFIER_ONLY: retirement recording requires a registered verifier")
    );
    assert!(!sc.is_serial_retired(b"KE-DH-00005"));
    // the active governance may record it
    sc.record_retirement(&call("governance"), &UNPAUSED, b"KE-DH-00005".to_vec(), b"Acme".to_vec(), addr("owner"), b"0x".to_vec())
        .unwrap();
    assert!(sc.is_serial_retired(b"KE-DH-00005"));
    assert_eq!(sc.get_total_retired(), 10);
}

#[test]
fn gsoc_registry_verifier_lifecycle_rs() {
    let mut sc = deploy("governance");
    sc.add_verifier(&call("owner"), &UNPAUSED, addr("verifier")).unwrap();
    assert!(sc.is_verifier(&addr("verifier")));
    sc.remove_verifier(&call("governance"), &UNPAUSED, addr("verifier")).unwrap();
    assert!(!sc.is_verifier(&addr("verifier")));
}

#[test]
fn gsoc_registry_verifier_removal_is_governance_only() {
    let mut sc = deploy("governance");
    sc.add_verifier(&call("governance"), &UNPAUSED, addr("verifier")).unwrap();
    assert!(sc.remove_verifier(&call("owner"), &UNPAUSED, addr("verifier")).is_err());
    assert!(sc.is_verifier(&addr("verifier")));
}

#[test]
fn gsoc_registry_reserve_register_retire_lifecycle_rs() {
    let mut sc = deploy("governance");
    let serial = b"KE-DH-SOC-00001";
    sc.reserve_serial(&call("governance"), &UNPAUSED, serial.to_vec()).unwrap();
    assert!(sc.is_serial_reserved(serial));
    sc.register_serial_batch(
        &call("governance"),
        &UNPAUSED,
        serial.to_vec(),
        b"PROJ-001".to_vec(),
        2026,
        b"KE-DH-SOC-00001".to_vec(),
        b"KE-DH-SOC-00001".to_vec(),
        1,
    )
    .unwrap();
    sc.add_verifier(&call("governance"), &UNPAUSED, addr("verifier")).unwrap();
    sc.record_retirement(
        &call("verifier"),
        &UNPAUSED,
        serial.to_vec(),
        b"Acme Corp".to_vec(),
        addr("owner"),
        b"tx:0xabc".to_vec(),
    )
    .unwrap();
    assert!(sc.is_serial_retired(serial));
}

#[test]
fn gsoc_registry_integration_rs_test_gsoc_registry_cancel_reservation_rs() {
    let mut sc = deploy("governance");
    let serial = b"KE-DH-CAN-00001";
    sc.reserve_serial(&call("governance"), &UNPAUSED, serial.to_vec()).unwrap();
    sc.cancel_reservation(&call("governance"), &UNPAUSED, serial.to_vec()).unwrap();
    assert!(!sc.is_serial_reserved(serial));
}

#[test]
fn gsoc_registry_lifecycle_emits_its_events() {
    let mut sc = deploy_with_verifier();
    let serial = b"KE-DH-EVT01";
    assert_eq!(
        sc.reserve_serial(&call("owner"), &UNPAUSED, serial.to_vec()),
        Ok((true, Some(GsocRegistryEvent::SerialReserved { itmo_serial: serial.to_vec() })))
    );
    assert_eq!(sc.reserve_serial(&call("owner"), &UNPAUSED, serial.to_vec()), Ok((false, None)));
    assert_eq!(
        register(&mut sc, serial, b"proj-7", 2024, 25),
        Ok(GsocRegistryEvent::SerialBatchRegistered { itmo_serial: serial.to_vec(), project_id: b"proj-7".to_vec(), quantity: 25 })
    );
    assert_eq!(
        retire(&mut sc, serial, b"Acme", b"0xburn"),
        Ok(GsocRegistryEvent::SerialRetired { itmo_serial: serial.to_vec(), beneficiary_name: b"Acme".to_vec() })
    );
    sc.reserve_serial(&call("owner"), &UNPAUSED, b"KE-DH-EVT02".to_vec()).unwrap();
    assert_eq!(
        sc.cancel_reservation(&call("owner"), &UNPAUSED, b"KE-DH-EVT02".to_vec()),
        Ok(GsocRegistryEvent::SerialReservationCancelled { itmo_serial: b"KE-DH-EVT02".to_vec() })
    );
    assert_eq!(
        sc.add_verifier(&call("owner"), &UNPAUSED, addr("second")),
        Ok(GsocRegistryEvent::VerifierAdded { verifier: addr("second") })
    );
}

#[test]
fn gsoc_verifier_removal_emits_the_removed_verifier() {
    let mut sc = deploy("governance");
    sc.add_verifier(&call("governance"), &UNPAUSED, addr("verifier")).unwrap();
    assert_eq!(
        sc.remove_verifier(&call("governance"), &UNPAUSED, addr("verifier")),
        Ok(GsocRegistryEvent::VerifierRemoved { verifier: addr("verifier") })
    );
}
