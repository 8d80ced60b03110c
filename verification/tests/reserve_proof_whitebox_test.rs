use mrv_drwa::amount::BigAmount;
use mrv_drwa::env::BlockchainEnv;
use mrv_drwa::reserve_proof_registry::{
    GsocReserveProofAnchoredEvent, ReserveProofAnchoredEvent, ReserveProofRegistry, ReserveProofRegistryState,
};

/// A 32-byte test address: the name padded with underscores.
fn addr(name: &str) -> Vec<u8> {
    let mut a = name.as_bytes().to_vec();
    a.resize(32, b'_');
    a
}

fn call(caller: &str) -> BlockchainEnv {
    BlockchainEnv {
        caller: addr(caller),
        owner: addr("owner"),
        contract: addr("reserve-proof-registry"),
        block_round: 0,
        block_epoch: 0,
        block_timestamp: 0,
    }
}

fn amt(n: u128) -> BigAmount {
    BigAmount::from_u128(n)
}

fn deploy() -> ReserveProofRegistryState {
    ReserveProofRegistryState::init(&call("owner"), addr("owner")).unwrap()
}

fn anchor(
    sc: &mut ReserveProofRegistryState,
    token: &[u8],
    supply: u128,
    buffer: u128,
    retired: u128,
    root: &[u8],
    block: u64,
) -> Result<ReserveProofAnchoredEvent, &'static str> {
    sc.anchor_reserve_proof(&call("owner"), token.to_vec(), amt(supply), amt(buffer), amt(retired), root.to_vec(), block)
}

#[test]
fn reserve_proof_init_rs() {
    let sc = deploy();
    assert_eq!(sc.gov.governance, Some(addr("owner")));
}

#[test]
fn reserve_proof_anchor_and_retrieve_rs() {
    let mut sc = deploy();
    anchor(&mut sc, b"CARBON-abc123", 100_000, 10_000, 5_000, b"merkle-root-001", 1000).unwrap();
    let proof = sc.get_latest_reserve_proof(b"CARBON-abc123").expect("proof should exist");
    assert_eq!(proof.snapshot_block, 1000);
    assert_eq!(proof.net_circulating_scaled, amt(85_000));
    assert_eq!(sc.get_reserve_proof(b"CARBON-abc123", 1000).unwrap().merkle_root, b"merkle-root-001".to_vec());
}

#[test]
fn reserve_proof_whitebox_test_reserve_proof_monotonic_block_guard_rs() {
    let mut sc = deploy();
    anchor(&mut sc, b"TOK-001", 50_000, 5_000, 0, b"root-1", 1000).unwrap();
    assert_eq!(
        anchor(&mut sc, b"TOK-001", 50_000, 5_000, 0, b"root-old", 999),
        Err("SNAPSHOT_BLOCK_NOT_MONOTONIC: new block must be greater than current latest")
    );
    anchor(&mut sc, b"TOK-001", 60_000, 6_000, 1_000, b"root-2", 2000).unwrap();
}

#[test]
fn reserve_proof_arithmetic_guard_rs() {
    let mut sc = deploy();
    assert_eq!(
        anchor(&mut sc, b"TOK-002", 100, 60, 50, b"root-bad", 1000),
        Err("INVALID_RESERVE_ARITHMETIC: supply < buffer + retired")
    );
}

#[test]
fn gsoc_reserve_proof_anchor_rs() {
    let mut sc = deploy();
    sc.anchor_gsoc_reserve_proof(&call("owner"), b"proj-001".to_vec(), 10000, 2000, 100, b"itmo-hash-001".to_vec(), 500).unwrap();
    let proof = sc.get_latest_gsoc_reserve_proof(b"proj-001").expect("gsoc proof should exist");
    assert_eq!(proof.net_active, 8000);
    assert_eq!(proof.serial_count, 100);
}

#[test]
fn reserve_proof_dvcu_and_gsoc_dual_track_rs() {
    let mut sc = ReserveProofRegistryState::init(&call("owner"), addr("governance")).unwrap();
    let merkle_root = [0u8; 32];
    anchor(&mut sc, b"CARBON-abc123", 1_000_000, 100_000, 50_000, &merkle_root, 100).unwrap();
    anchor(&mut sc, b"CARBON-abc123", 2_000_000, 200_000, 100_000, &merkle_root, 200).unwrap();
    let itmo_hash = [0u8; 32];
    sc.anchor_gsoc_reserve_proof(&call("owner"), b"GSOC-KE-001".to_vec(), 500, 50, 450, itmo_hash.to_vec(), 100).unwrap();
}

#[test]
fn reserve_proof_integration_rs_test_reserve_proof_monotonic_block_guard_rs() {
    let mut sc = ReserveProofRegistryState::init(&call("owner"), addr("governance")).unwrap();
    let merkle_root = [1u8; 32];
    anchor(&mut sc, b"TOKEN-001", 100, 10, 5, &merkle_root, 100).unwrap();
    assert_eq!(
        anchor(&mut sc, b"TOKEN-001", 200, 20, 10, &merkle_root, 50),
        Err("SNAPSHOT_BLOCK_NOT_MONOTONIC: new block must be greater than current latest")
    );
}

#[test]
fn reserve_proof_empty_root_and_hash_are_refused() {
    let mut sc = deploy();
    assert_eq!(anchor(&mut sc, b"CARBON-abc123", 100, 10, 5, b"", 1000), Err("empty merkle_root"));
    assert_eq!(
        sc.anchor_gsoc_reserve_proof(&call("owner"), b"proj-001".to_vec(), 10, 2, 1, Vec::new(), 500),
        Err("empty itmo_serial_hash")
    );
    assert!(sc.get_latest_reserve_proof(b"CARBON-abc123").is_none());
    assert!(sc.get_latest_gsoc_reserve_proof(b"proj-001").is_none());
}

#[test]
fn reserve_proof_snapshot_blocks_only_move_forward() {
    let mut sc = deploy();
    anchor(&mut sc, b"TOK-001", 50_000, 5_000, 0, b"root-1", 1000).unwrap();
    assert_eq!(
        anchor(&mut sc, b"TOK-001", 50_000, 5_000, 0, b"root-same", 1000),
        Err("SNAPSHOT_BLOCK_NOT_MONOTONIC: new block must be greater than current latest")
    );
    anchor(&mut sc, b"TOK-001", 60_000, 6_000, 1_000, b"root-2", 2000).unwrap();
    assert_eq!(sc.get_latest_reserve_proof(b"TOK-001").unwrap().net_circulating_scaled, amt(53_000));
    // The earlier snapshot stays readable.
    assert_eq!(sc.get_reserve_proof(b"TOK-001", 1000).unwrap().net_circulating_scaled, amt(45_000));
}

#[test]
fn reserve_proof_supply_exactly_covered_leaves_nothing_circulating() {
    let mut sc = deploy();
    anchor(&mut sc, b"TOK-002", 110, 60, 50, b"root", 1000).unwrap();
    assert_eq!(sc.get_latest_reserve_proof(b"TOK-002").unwrap().net_circulating_scaled, amt(0));
}

#[test]
fn gsoc_reserve_proof_issued_must_cover_retired() {
    let mut sc = deploy();
    assert_eq!(
        sc.anchor_gsoc_reserve_proof(&call("owner"), b"proj-001".to_vec(), 1, 2, 1, b"h".to_vec(), 600),
        Err("INVALID_RESERVE_ARITHMETIC: issued < retired")
    );
}

#[test]
fn reserve_proof_owner_and_active_governance_may_anchor() {
    let mut sc = ReserveProofRegistryState::init(&call("owner"), addr("governance")).unwrap();
    anchor(&mut sc, b"TOKEN-001", 100, 10, 5, b"r1", 100).unwrap();
    sc.anchor_reserve_proof(&call("governance"), b"TOKEN-001".to_vec(), amt(100), amt(10), amt(5), b"r2".to_vec(), 200).unwrap();
    assert_eq!(
        sc.anchor_reserve_proof(&call("stranger"), b"TOKEN-001".to_vec(), amt(100), amt(10), amt(5), b"r3".to_vec(), 300),
        Err("caller not authorized")
    );
    assert_eq!(sc.get_latest_reserve_proof(b"TOKEN-001").unwrap().snapshot_block, 200);
}

#[test]
fn anchoring_emits_the_indexed_fields() {
    let mut sc = deploy();
    assert_eq!(
        anchor(&mut sc, b"CARBON-abc123", 100, 10, 5, &[3u8; 32], 42),
        Ok(ReserveProofAnchoredEvent { token_id: b"CARBON-abc123".to_vec(), merkle_root: vec![3u8; 32], snapshot_block: 42 })
    );
    assert_eq!(
        sc.anchor_gsoc_reserve_proof(&call("owner"), b"proj-9".to_vec(), 10, 4, 2, vec![9u8; 32], 7),
        Ok(GsocReserveProofAnchoredEvent { project_id: b"proj-9".to_vec(), itmo_serial_hash: vec![9u8; 32], snapshot_block: 7 })
    );
}

#[test]
fn reserve_proof_supply_beyond_128_bits() {
    let mut sc = deploy();
    // 2^128: one followed by sixteen zero bytes
    let mut two_pow_128 = vec![1u8];
    two_pow_128.extend(vec![0u8; 16]);
    sc.anchor_reserve_proof(
        &call("owner"),
        b"TOK-BIG".to_vec(),
        BigAmount::from_be_bytes(two_pow_128),
        amt(1),
        amt(0),
        b"root".to_vec(),
        10,
    )
    .unwrap();
    let proof = sc.get_latest_reserve_proof(b"TOK-BIG").unwrap();
    assert_eq!(proof.net_circulating_scaled, amt(u128::MAX));
}
