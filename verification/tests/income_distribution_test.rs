use mrv_drwa::amount::BigAmount;
use mrv_drwa::bytes::make_key2;
use mrv_drwa::env::{BlockchainEnv, Payment};
use mrv_drwa::income_distribution::{compute_claim_root, IncomeDistribution, IncomeDistributionEvent, IncomeDistributionState};

const COME: &[u8] = b"COME-abcdef";
const DIST: &[u8] = b"dist-1";
/// keccak256("dist-1" ‖ alice ‖ 300 big-endian)
const LEAF_ALICE: [u8; 32] = [
    101, 117, 22, 165, 181, 238, 31, 161, 179, 142, 230, 101, 87, 65, 64, 156, 255, 241, 74, 163, 249, 129, 200, 238, 81,
    186, 23, 0, 39, 235, 87, 33,
];
/// keccak256("dist-1" ‖ bob ‖ 700 big-endian)
const LEAF_BOB: [u8; 32] = [
    78, 175, 213, 246, 226, 48, 245, 64, 99, 121, 29, 232, 97, 216, 241, 143, 70, 141, 234, 97, 167, 254, 94, 210, 166, 196,
    4, 147, 63, 125, 62, 35,
];
/// keccak256 of the two leaves, the smaller first.
const ROOT: [u8; 32] = [
    114, 36, 62, 38, 236, 185, 111, 65, 32, 252, 119, 159, 221, 2, 163, 200, 235, 60, 125, 179, 58, 177, 165, 118, 106, 193,
    114, 124, 142, 203, 13, 206,
];

/// A 32-byte test address: the name padded with underscores.
fn addr(name: &str) -> Vec<u8> {
    let mut a = name.as_bytes().to_vec();
    a.resize(32, b'_');
    a
}

fn at(caller: &str, epoch: u64) -> BlockchainEnv {
    BlockchainEnv {
        caller: addr(caller),
        owner: addr("owner"),
        contract: addr("income-distribution"),
        block_round: 0,
        block_epoch: epoch,
        block_timestamp: 0,
    }
}

fn amt(n: u128) -> BigAmount {
    BigAmount::from_u128(n)
}

fn come(amount: u128) -> Payment {
    Payment { token_id: COME.to_vec(), token_nonce: 0, amount: amt(amount) }
}

fn funded() -> IncomeDistributionState {
    let mut sc = IncomeDistributionState::init(&at("owner", 0), addr("governance"), COME.to_vec()).unwrap();
    sc.fund_distribution(&at("governance", 10), &come(1000), DIST.to_vec(), ROOT.to_vec(), 77, b"bafymanifest".to_vec(), 5010)
        .unwrap();
    sc
}

#[test]
fn claim_root_folds_sorted_pairs() {
    assert_eq!(compute_claim_root(DIST, &addr("alice"), &amt(300), &vec![]), LEAF_ALICE.to_vec());
    assert_eq!(compute_claim_root(DIST, &addr("alice"), &amt(300), &vec![LEAF_BOB.to_vec()]), ROOT.to_vec());
    assert_eq!(compute_claim_root(DIST, &addr("bob"), &amt(700), &vec![LEAF_ALICE.to_vec()]), ROOT.to_vec());
    assert_ne!(compute_claim_root(DIST, &addr("bob"), &amt(701), &vec![LEAF_ALICE.to_vec()]), ROOT.to_vec());
}

#[test]
fn funding_rules() {
    let mut sc = IncomeDistributionState::init(&at("owner", 0), addr("governance"), COME.to_vec()).unwrap();
    let fund = |sc: &mut IncomeDistributionState, root: Vec<u8>, expiry: u64, p: Payment| {
        sc.fund_distribution(&at("governance", 10), &p, DIST.to_vec(), root, 77, b"bafymanifest".to_vec(), expiry)
    };
    assert_eq!(fund(&mut sc, vec![1u8; 31], 5010, come(1000)), Err("merkle_root must be 32 bytes"));
    assert_eq!(fund(&mut sc, vec![0u8; 32], 5010, come(1000)), Err("merkle_root must not be all zeros"));
    assert_eq!(
        fund(&mut sc, ROOT.to_vec(), 5009, come(1000)),
        Err("expiry_epoch must be at least MINIMUM_CLAIM_WINDOW_EPOCHS from now")
    );
    assert_eq!(
        fund(&mut sc, ROOT.to_vec(), 5010, Payment { token_id: b"OTHER-abcdef".to_vec(), token_nonce: 0, amount: amt(1000) }),
        Err("must pay with COME token")
    );
    assert_eq!(fund(&mut sc, ROOT.to_vec(), 5010, come(0)), Err("must fund with positive amount"));
    assert_eq!(
        fund(&mut sc, ROOT.to_vec(), 5010, come(1000)),
        Ok(IncomeDistributionEvent::DistributionFunded { distribution_id: DIST.to_vec(), total_amount: amt(1000) })
    );
    assert_eq!(fund(&mut sc, ROOT.to_vec(), 5010, come(1000)), Err("distribution already exists"));
    assert_eq!(sc.get_distribution(DIST).unwrap().total_amount_scaled, amt(1000));
    assert_eq!(sc.get_claim_window(&at("anyone", 10), DIST), 5000);
}

#[test]
fn holders_claim_once_with_a_valid_proof() {
    let mut sc = funded();
    assert_eq!(
        sc.claim_yield(&at("alice", 20), DIST.to_vec(), amt(301), vec![LEAF_BOB.to_vec()], amt(1000)).err(),
        Some("INVALID_MERKLE_PROOF")
    );
    let (t, ev) = sc.claim_yield(&at("alice", 20), DIST.to_vec(), amt(300), vec![LEAF_BOB.to_vec()], amt(1000)).unwrap();
    assert_eq!(ev, IncomeDistributionEvent::YieldClaimed { distribution_id: DIST.to_vec(), holder: addr("alice"), amount: amt(300) });
    assert_eq!(t.len(), 1);
    assert_eq!((t[0].to.clone(), t[0].token_id.clone(), t[0].amount.clone()), (addr("alice"), COME.to_vec(), amt(300)));
    assert!(sc.is_claimed(DIST, &addr("alice")));
    assert_eq!(
        sc.claim_yield(&at("alice", 20), DIST.to_vec(), amt(300), vec![LEAF_BOB.to_vec()], amt(700)).err(),
        Some("ALREADY_CLAIMED")
    );
    assert_eq!(
        sc.claim_yield(&at("bob", 20), DIST.to_vec(), amt(700), vec![LEAF_ALICE.to_vec()], amt(699)).err(),
        Some("INSUFFICIENT_CONTRACT_BALANCE: contract does not hold enough COME to pay this claim")
    );
    sc.claim_yield(&at("bob", 20), DIST.to_vec(), amt(700), vec![LEAF_ALICE.to_vec()], amt(700)).unwrap();
    assert_eq!(sc.get_distribution(DIST).unwrap().total_claimed_scaled, amt(1000));
}

#[test]
fn paused_and_expired_distributions_refuse_claims() {
    let mut sc = funded();
    assert_eq!(
        sc.pause_distribution(&at("governance", 20), DIST.to_vec()),
        Ok(IncomeDistributionEvent::DistributionPaused { distribution_id: DIST.to_vec() })
    );
    assert_eq!(
        sc.claim_yield(&at("alice", 20), DIST.to_vec(), amt(300), vec![LEAF_BOB.to_vec()], amt(1000)).err(),
        Some("DISTRIBUTION_PAUSED: claims are temporarily suspended")
    );
    assert_eq!(
        sc.unpause_distribution(&at("governance", 20), DIST.to_vec()),
        Ok(IncomeDistributionEvent::DistributionUnpaused { distribution_id: DIST.to_vec() })
    );
    assert_eq!(
        sc.claim_yield(&at("alice", 5011), DIST.to_vec(), amt(300), vec![LEAF_BOB.to_vec()], amt(1000)).err(),
        Some("DISTRIBUTION_EXPIRED")
    );
    assert_eq!(
        sc.claim_yield(&at("alice", 20), DIST.to_vec(), amt(300), vec![LEAF_BOB.to_vec(); 65], amt(1000)).err(),
        Some("MERKLE_PROOF_TOO_DEEP")
    );
}

#[test]
fn reclaim_returns_the_unclaimed_rest_and_records_a_shortfall() {
    let mut sc = funded();
    sc.claim_yield(&at("alice", 20), DIST.to_vec(), amt(300), vec![LEAF_BOB.to_vec()], amt(1000)).unwrap();
    assert_eq!(
        sc.reclaim_expired(&at("governance", 5010), DIST.to_vec(), amt(700)).err(),
        Some("distribution not yet expired")
    );
    // Only 600 of the 700 unclaimed are still held by the contract.
    let (t, events) = sc.reclaim_expired(&at("governance", 5011), DIST.to_vec(), amt(600)).unwrap();
    assert_eq!(
        events,
        vec![
            IncomeDistributionEvent::ShortfallDetected {
                distribution_id: DIST.to_vec(),
                expected_amount: amt(700),
                actual_amount: amt(600),
                shortfall: amt(100),
            },
            IncomeDistributionEvent::DistributionReclaimed { distribution_id: DIST.to_vec() },
        ]
    );
    assert_eq!((t[0].to.clone(), t[0].amount.clone()), (addr("governance"), amt(600)));
    assert_eq!(sc.get_reclaim_shortfall(DIST), amt(100));
    assert!(sc.get_distribution(DIST).unwrap().reclaimed);
    assert_eq!(sc.reclaim_expired(&at("governance", 5011), DIST.to_vec(), amt(600)).err(), Some("already reclaimed"));
    assert_eq!(
        sc.recover_shortfall(&at("governance", 5012), DIST.to_vec(), &come(101)).err(),
        Some("RECOVERY_EXCEEDS_SHORTFALL: payment exceeds recorded shortfall")
    );
    let (t, ev) = sc.recover_shortfall(&at("governance", 5012), DIST.to_vec(), &come(100)).unwrap();
    assert_eq!(ev, IncomeDistributionEvent::ShortfallRecovered { distribution_id: DIST.to_vec(), recovered_amount: amt(100) });
    assert_eq!((t[0].to.clone(), t[0].amount.clone()), (addr("governance"), amt(100)));
    assert_eq!(sc.get_reclaim_shortfall(DIST), amt(0));
}

#[test]
fn reclaim_with_a_covered_rest_emits_only_the_reclaim() {
    let mut sc = funded();
    let (t, events) = sc.reclaim_expired(&at("governance", 5011), DIST.to_vec(), amt(5_000)).unwrap();
    assert_eq!((t[0].to.clone(), t[0].amount.clone()), (addr("governance"), amt(1000)));
    assert_eq!(events, vec![IncomeDistributionEvent::DistributionReclaimed { distribution_id: DIST.to_vec() }]);
    assert_eq!(sc.get_reclaim_shortfall(DIST), amt(0));
}

#[test]
fn claimed_total_is_the_sum_of_recorded_claims() {
    let mut sc = funded();
    let claim_of = |sc: &IncomeDistributionState, holder: &str| -> BigAmount {
        sc.claimed.get(&make_key2(DIST, &addr(holder))).cloned().unwrap_or_else(BigAmount::zero)
    };
    assert_eq!(sc.get_distribution(DIST).unwrap().total_claimed_scaled, amt(0));
    sc.claim_yield(&at("alice", 20), DIST.to_vec(), amt(300), vec![LEAF_BOB.to_vec()], amt(1000)).unwrap();
    assert_eq!(claim_of(&sc, "alice"), amt(300));
    assert_eq!(sc.get_distribution(DIST).unwrap().total_claimed_scaled, claim_of(&sc, "alice"));
    // a refused claim records nothing
    assert!(sc.claim_yield(&at("bob", 20), DIST.to_vec(), amt(701), vec![LEAF_ALICE.to_vec()], amt(1000)).is_err());
    assert_eq!(claim_of(&sc, "bob"), amt(0));
    sc.claim_yield(&at("bob", 20), DIST.to_vec(), amt(700), vec![LEAF_ALICE.to_vec()], amt(700)).unwrap();
    assert_eq!(claim_of(&sc, "bob"), amt(700));
    // the claimed total is alice's 300 plus bob's 700
    assert_eq!(sc.get_distribution(DIST).unwrap().total_claimed_scaled, amt(300 + 700));
    assert_eq!(sc.claimed.len(), 2);
}
