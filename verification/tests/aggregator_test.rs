use mrv_drwa::aggregator::{
    check_semantic_divergence, compute_mrv_root, managed_buffer_lex_gt, parse_ascii_u64, require_valid_coherence_window,
    AggregatorEvent, AggregatorState, MrvAggregator,
};
use mrv_drwa::env::BlockchainEnv;
use mrv_drwa::mrv_common::PauseProbe;

const PAI: &[u8] = b"PAI-1";
const UNPAUSED: PauseProbe = PauseProbe { authority_is_smart_contract: false, governance_paused: false };
const DEVICE_PK: [u8; 32] = [
    3, 161, 7, 191, 243, 206, 16, 190, 29, 112, 221, 24, 231, 75, 192, 153, 103, 228, 214, 48, 155, 165, 13, 95, 29, 220,
    134, 100, 18, 85, 49, 184,
];
/// Ed25519 signature, by the key above, of the reading payload of the IoT
/// reading submitted in `seal_flow`.
const DEVICE_SIG: [u8; 64] = [
    40, 129, 88, 154, 131, 7, 7, 5, 212, 194, 205, 219, 121, 111, 135, 48, 9, 246, 108, 17, 144, 89, 68, 223, 5, 156, 66,
    211, 179, 88, 166, 12, 141, 41, 192, 154, 217, 0, 61, 136, 118, 96, 211, 128, 178, 190, 64, 249, 43, 41, 207, 22, 209,
    6, 93, 164, 135, 185, 40, 188, 137, 49, 22, 13,
];
/// SHA-256 of the MRV root preimage of ("PAI-1", 2000, ["100", "120"], no discrepancy).
const ROOT: [u8; 32] = [
    110, 203, 123, 44, 16, 232, 39, 89, 36, 245, 24, 88, 11, 209, 148, 206, 36, 235, 23, 19, 32, 68, 47, 197, 37, 64, 69,
    29, 187, 251, 230, 242,
];
/// The same with CIDs "120" and "5000" and the discrepancy flag set.
const ROOT_DISCREPANT: [u8; 32] = [
    113, 111, 228, 77, 205, 226, 40, 111, 107, 114, 58, 238, 177, 129, 15, 79, 132, 184, 47, 17, 160, 78, 79, 45, 145, 183,
    10, 37, 225, 173, 156, 173,
];

/// A 32-byte test address: the name padded with underscores.
fn addr(name: &str) -> Vec<u8> {
    let mut a = name.as_bytes().to_vec();
    a.resize(32, b'_');
    a
}

fn at(caller: &str, timestamp: u64) -> BlockchainEnv {
    BlockchainEnv {
        caller: addr(caller),
        owner: addr("owner"),
        contract: addr("mrv-aggregator"),
        block_round: 0,
        block_epoch: 0,
        block_timestamp: timestamp,
    }
}

fn deploy() -> AggregatorState {
    let mut sc = AggregatorState::init(&at("owner", 0), 2, 0, 0, 0, 3000).unwrap();
    sc.register_oracle(&at("owner", 0), &UNPAUSED, addr("oracle")).unwrap();
    sc.register_device_public_key(&at("owner", 0), &UNPAUSED, addr("device-001"), DEVICE_PK.to_vec()).unwrap();
    sc
}

fn submit(
    sc: &mut AggregatorState,
    source: u8,
    cid: &[u8],
    ts: u64,
    device: Vec<u8>,
    sig: Vec<u8>,
) -> Result<AggregatorEvent, &'static str> {
    sc.submit_oracle_reading(&at("oracle", 5000), &UNPAUSED, PAI.to_vec(), 1000, 2000, source, cid.to_vec(), ts, device, sig)
}

#[test]
fn parse_ascii_u64_rules() {
    assert_eq!(parse_ascii_u64(b"0"), Some(0));
    assert_eq!(parse_ascii_u64(b"007"), Some(7));
    assert_eq!(parse_ascii_u64(b"18446744073709551615"), Some(u64::MAX));
    assert_eq!(parse_ascii_u64(b"18446744073709551616"), None);
    assert_eq!(parse_ascii_u64(b""), None);
    assert_eq!(parse_ascii_u64(b"12a"), None);
    assert_eq!(parse_ascii_u64(b"-1"), None);
}

#[test]
fn lexicographic_order_of_buffers() {
    assert!(managed_buffer_lex_gt(b"b", b"a"));
    assert!(!managed_buffer_lex_gt(b"a", b"b"));
    assert!(managed_buffer_lex_gt(b"ab", b"a"));
    assert!(!managed_buffer_lex_gt(b"a", b"ab"));
    assert!(!managed_buffer_lex_gt(b"abc", b"abc"));
    assert!(managed_buffer_lex_gt(&[0xff], &[0x00, 0xff]));
}

#[test]
fn semantic_divergence_thresholds() {
    assert!(!check_semantic_divergence(b"bafyX", b"bafyX", 0));
    assert!(!check_semantic_divergence(b"1000", b"1300", 300));
    assert!(check_semantic_divergence(b"1000", b"1301", 300));
    assert!(check_semantic_divergence(b"1301", b"1000", 300));
    assert!(check_semantic_divergence(b"bafyA", b"bafyB", u64::MAX));
}

#[test]
fn coherence_window_bounds() {
    assert_eq!(require_valid_coherence_window(60), Ok(()));
    assert_eq!(require_valid_coherence_window(2_592_000), Ok(()));
    assert!(require_valid_coherence_window(59).is_err());
    assert!(require_valid_coherence_window(2_592_001).is_err());
}

#[test]
fn mrv_root_is_sha256_of_the_sorted_preimage() {
    let cids = vec![b"120".to_vec(), b"100".to_vec()];
    assert_eq!(compute_mrv_root(PAI, 2000, &cids, false).unwrap(), ROOT.to_vec());
    // The order in which the CIDs arrive does not matter.
    let swapped = vec![b"100".to_vec(), b"120".to_vec()];
    assert_eq!(compute_mrv_root(PAI, 2000, &swapped, false).unwrap(), ROOT.to_vec());
    let four = vec![b"1".to_vec(), b"2".to_vec(), b"3".to_vec(), b"4".to_vec()];
    assert_eq!(compute_mrv_root(PAI, 2000, &four, false), Err("unexpected oracle source count"));
}

#[test]
fn seal_flow() {
    let mut sc = deploy();
    // A signed IoT reading and an unsigned satellite reading.
    assert_eq!(
        submit(&mut sc, 0, b"120", 1999, addr("device-001"), DEVICE_SIG.to_vec()),
        Ok(AggregatorEvent::OracleReadingSubmitted { pai_id: PAI.to_vec(), data_cid: b"120".to_vec(), device_did: addr("device-001") })
    );
    submit(&mut sc, 1, b"100", 1990, vec![0u8; 32], Vec::new()).unwrap();
    assert_eq!(
        submit(&mut sc, 1, b"100", 1990, vec![0u8; 32], Vec::new()),
        Err("READING_ALREADY_SUBMITTED: reading already exists for this source/period")
    );
    assert_eq!(
        sc.try_seal(&at("owner", 2000), &UNPAUSED, PAI.to_vec(), 2000),
        Err("PERIOD_NOT_ENDED: cannot seal before monitoring period closes")
    );
    assert_eq!(
        sc.try_seal(&at("owner", 5000), &UNPAUSED, PAI.to_vec(), 2000),
        Ok(AggregatorEvent::EventSealed { pai_id: PAI.to_vec(), mrv_root: ROOT.to_vec() })
    );
    let ev = sc.get_sealed_event(PAI, 2000).unwrap();
    assert_eq!(ev.mrv_root, ROOT.to_vec());
    assert_eq!(ev.reading_count, 2);
    assert!(!ev.semantic_discrepancy);
    assert_eq!(ev.sealed_at, 5000);
    assert!(sc.is_sealed(PAI, 2000));
    // The readings of a sealed period are cleared, and the period stays closed.
    assert!(sc.get_oracle_reading(PAI, 2000, 0).is_none());
    assert_eq!(
        submit(&mut sc, 2, b"110", 1995, vec![0u8; 32], Vec::new()),
        Err("EVENT_ALREADY_SEALED: period already sealed for this PAI")
    );
    assert_eq!(
        sc.try_seal(&at("owner", 5000), &UNPAUSED, PAI.to_vec(), 2000),
        Err("EVENT_ALREADY_SEALED: period already sealed")
    );
}

#[test]
fn iot_readings_need_a_valid_device_signature() {
    let mut sc = deploy();
    assert_eq!(
        submit(&mut sc, 0, b"120", 1999, addr("device-001"), Vec::new()),
        Err("INVALID_DEVICE_SIGNATURE: IoT readings require non-empty device_signature")
    );
    assert_eq!(
        submit(&mut sc, 0, b"120", 1999, addr("device-001"), vec![1u8; 63]),
        Err("INVALID_DEVICE_SIGNATURE: signature must be exactly 64 bytes (ed25519)")
    );
    // A signature over a different reading does not verify.
    assert_eq!(
        submit(&mut sc, 0, b"121", 1999, addr("device-001"), DEVICE_SIG.to_vec()),
        Err("ed25519 verify error")
    );
    assert_eq!(
        submit(&mut sc, 0, b"120", 1999, addr("unknown-device"), DEVICE_SIG.to_vec()),
        Err("DEVICE_NOT_REGISTERED: device_did must be registered via registerDevice")
    );
    assert!(sc.get_oracle_reading(PAI, 2000, 0).is_none());
}

#[test]
fn reading_rules_in_order() {
    let mut sc = deploy();
    assert_eq!(
        sc.submit_oracle_reading(&at("stranger", 5000), &UNPAUSED, PAI.to_vec(), 1000, 2000, 1, b"1".to_vec(), 1500, vec![0u8; 32], Vec::new()),
        Err("ORACLE_NOT_AUTHORIZED: caller must be a registered authorized oracle")
    );
    assert_eq!(submit(&mut sc, 3, b"1", 1500, vec![0u8; 32], Vec::new()), Err("source must be 0 (IoT), 1 (Satellite), or 2 (GovtLab)"));
    assert_eq!(submit(&mut sc, 1, b"", 1500, vec![0u8; 32], Vec::new()), Err("empty data_cid"));
    assert_eq!(
        submit(&mut sc, 1, b"1", 6000, vec![0u8; 32], Vec::new()),
        Err("FUTURE_TIMESTAMP: source_timestamp cannot be in the future")
    );
    assert_eq!(submit(&mut sc, 1, b"1", 999, vec![0u8; 32], Vec::new()), Err("reading predates period"));
}

#[test]
fn discrepancy_must_be_acknowledged_before_sealing() {
    let mut sc = deploy();
    submit(&mut sc, 1, b"5000", 1990, vec![0u8; 32], Vec::new()).unwrap();
    sc.submit_oracle_reading(
        &at("oracle", 5000),
        &UNPAUSED,
        PAI.to_vec(),
        1000,
        2000,
        0,
        b"120".to_vec(),
        1999,
        addr("device-001"),
        DEVICE_SIG.to_vec(),
    )
    .unwrap();
    assert_eq!(
        sc.try_seal(&at("owner", 5000), &UNPAUSED, PAI.to_vec(), 2000),
        Err("DISCREPANCY_NOT_ACKNOWLEDGED: IoT-Satellite divergence detected — call acknowledgeDiscrepancy before sealing")
    );
    assert_eq!(
        sc.acknowledge_discrepancy(&at("owner", 5000), &UNPAUSED, PAI.to_vec(), 2000, b"bafyack".to_vec()),
        Ok(AggregatorEvent::DiscrepancyAcknowledged { pai_id: PAI.to_vec() })
    );
    sc.try_seal(&at("owner", 5000), &UNPAUSED, PAI.to_vec(), 2000).unwrap();
    let ev = sc.get_sealed_event(PAI, 2000).unwrap();
    assert!(ev.semantic_discrepancy);
    assert_eq!(ev.mrv_root, ROOT_DISCREPANT.to_vec());
}

#[test]
fn quorum_is_needed_and_never_lowered() {
    let mut sc = deploy();
    submit(&mut sc, 1, b"100", 1990, vec![0u8; 32], Vec::new()).unwrap();
    assert_eq!(
        sc.try_seal(&at("owner", 5000), &UNPAUSED, PAI.to_vec(), 2000),
        Err("insufficient oracle readings for quorum")
    );
    sc.set_quorum(&at("owner", 0), &UNPAUSED, 3).unwrap();
    assert_eq!(
        sc.set_quorum(&at("owner", 0), &UNPAUSED, 2),
        Err("QUORUM_DECREASE_DISABLED: quorum changes must not reduce the current threshold")
    );
    assert_eq!(sc.set_quorum(&at("owner", 0), &UNPAUSED, 4), Err("quorum exceeds available oracle source count"));
}

#[test]
fn pause_probe_blocks_state_changes() {
    let mut sc = deploy();
    let contract_authority = PauseProbe { authority_is_smart_contract: true, governance_paused: false };
    assert_eq!(
        sc.submit_oracle_reading(&at("oracle", 5000), &contract_authority, PAI.to_vec(), 1000, 2000, 1, b"1".to_vec(), 1500, vec![0u8; 32], Vec::new()),
        Err("MRV_GOVERNANCE_READ_NOT_CONFIGURED")
    );
    sc.set_governance_read_address(&at("owner", 0), addr("governance")).unwrap();
    let paused = PauseProbe { authority_is_smart_contract: true, governance_paused: true };
    assert_eq!(
        sc.submit_oracle_reading(&at("oracle", 5000), &paused, PAI.to_vec(), 1000, 2000, 1, b"1".to_vec(), 1500, vec![0u8; 32], Vec::new()),
        Err("MRV_GOVERNANCE_PAUSED")
    );
}

#[test]
fn force_seal_after_timeout_emits_its_root() {
    let mut sc = deploy();
    submit(&mut sc, 0, b"120", 1999, addr("device-001"), DEVICE_SIG.to_vec()).unwrap();
    submit(&mut sc, 1, b"100", 1990, vec![0u8; 32], Vec::new()).unwrap();
    assert_eq!(
        sc.force_seal_after_timeout(&at("owner", 2_594_000), &UNPAUSED, PAI.to_vec(), 2000),
        Ok(AggregatorEvent::ForceSealed { pai_id: PAI.to_vec(), mrv_root: ROOT.to_vec() })
    );
    assert!(sc.is_sealed(PAI, 2000));
}

#[test]
fn oracle_update_events_name_both_oracles() {
    let mut sc = deploy();
    assert_eq!(
        sc.propose_oracle_update(&at("owner", 0), &UNPAUSED, addr("oracle"), addr("oracle-2"), 10),
        Ok(AggregatorEvent::OracleUpdateProposed {
            current_oracle: addr("oracle"),
            proposed_oracle: addr("oracle-2"),
            scope_end_epoch: 10,
        })
    );
    assert_eq!(
        sc.accept_oracle_update(&at("oracle-2", 0), &UNPAUSED, addr("oracle")),
        Ok(AggregatorEvent::OracleUpdateAccepted { replaced_oracle: addr("oracle"), new_oracle: addr("oracle-2") })
    );
    assert!(sc.is_oracle_authorized(&addr("oracle-2")));
    assert!(!sc.is_oracle_authorized(&addr("oracle")));
}
