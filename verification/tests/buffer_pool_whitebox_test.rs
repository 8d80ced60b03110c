use mrv_drwa::amount::BigAmount;
use mrv_drwa::buffer_pool::{BufferPool, BufferPoolEvent, BufferPoolState};
use mrv_drwa::env::BlockchainEnv;

/// A 32-byte test address: the name padded with underscores.
fn addr(name: &str) -> Vec<u8> {
    let mut a = name.as_bytes().to_vec();
    a.resize(32, b'_');
    a
}

fn amt(n: u128) -> BigAmount {
    BigAmount::from_u128(n)
}

fn call_at(caller: &str, epoch: u64) -> BlockchainEnv {
    BlockchainEnv {
        caller: addr(caller),
        owner: addr("owner"),
        contract: addr("mrv-buffer-pool"),
        block_round: 0,
        block_epoch: epoch,
        block_timestamp: 0,
    }
}

fn call(caller: &str) -> BlockchainEnv {
    call_at(caller, 0)
}

fn deploy() -> BufferPoolState {
    BufferPoolState::init(&call("owner"), addr("governance"), addr("carbon-credit")).unwrap()
}

/// Deploys the pool and deposits 10_000 for project-010.
fn deploy_and_deposit() -> BufferPoolState {
    let mut sc = deploy();
    sc.deposit_buffer_credits(&call("carbon-credit"), b"project-010".to_vec(), amt(10_000), 1).unwrap();
    sc
}

#[test]
fn buffer_pool_whitebox_test_buffer_pool_init_rs() {
    let sc = deploy();
    assert_eq!(sc.gov.governance, Some(addr("governance")));
    assert_eq!(sc.carbon_credit_addr, Some(addr("carbon-credit")));
}

#[test]
fn buffer_pool_deposit_buffer_credits_rs() {
    let mut sc = deploy();
    sc.deposit_buffer_credits(&call("carbon-credit"), b"project-001".to_vec(), amt(5_000), 1).unwrap();
    let record = sc.get_buffer_record(b"project-001").unwrap();
    assert_eq!(record.total_deposited, amt(5_000));
    assert_eq!(record.total_cancelled, amt(0));
    assert_eq!(record.total_replenished, amt(0));
    assert_eq!(sc.get_total_pool_balance(), amt(5_000));
}

#[test]
fn buffer_pool_rejects_unauthorized_deposit_rs() {
    let mut sc = deploy();
    assert_eq!(
        sc.deposit_buffer_credits(&call("unauthorized"), b"project-001".to_vec(), amt(1_000), 1),
        Err("caller not authorized")
    );
}

#[test]
fn buffer_pool_cancel_buffer_credits_rs() {
    let mut sc = deploy_and_deposit();
    sc.cancel_buffer_credits(&call("governance"), b"project-010".to_vec(), amt(3_000), b"bafyreason-fire-event".to_vec())
        .unwrap();
    let record = sc.get_buffer_record(b"project-010").unwrap();
    assert_eq!(record.total_deposited, amt(10_000));
    assert_eq!(record.total_cancelled, amt(3_000));
    assert_eq!(sc.get_total_pool_balance(), amt(7_000));
}

#[test]
fn buffer_pool_replenish_buffer_credits_small_amount_rs() {
    let mut sc = deploy_and_deposit();
    // 10% of 10_000 = 1_000: 500 is under the threshold.
    sc.replenish_buffer_credits(&call("carbon-credit"), b"project-010".to_vec(), amt(500), b"bafyjustification001".to_vec())
        .unwrap();
    let record = sc.get_buffer_record(b"project-010").unwrap();
    assert_eq!(record.total_replenished, amt(500));
    assert_eq!(sc.get_total_pool_balance(), amt(10_500));
}

#[test]
fn buffer_pool_replenish_above_threshold_non_governance_fails_rs() {
    let mut sc = deploy_and_deposit();
    assert_eq!(
        sc.replenish_buffer_credits(&call("carbon-credit"), b"project-010".to_vec(), amt(2_000), b"bafyjustification002".to_vec()),
        Err("replenishment exceeds 10% threshold \u{2014} governance approval required")
    );
}

#[test]
fn buffer_pool_cancel_nonexistent_project_fails_rs() {
    let mut sc = deploy_and_deposit();
    assert_eq!(
        sc.cancel_buffer_credits(&call("governance"), b"project-NONEXISTENT".to_vec(), amt(1_000), b"bafyreason".to_vec()),
        Err("no buffer record for project")
    );
}

#[test]
fn buffer_pool_replenishment_cooldown_enforcement_rs() {
    let mut sc = deploy_and_deposit();
    sc.replenish_buffer_credits(&call_at("carbon-credit", 0), b"project-010".to_vec(), amt(500), b"bafyjust-cooldown-1".to_vec())
        .unwrap();
    assert_eq!(
        sc.replenish_buffer_credits(&call_at("carbon-credit", 100), b"project-010".to_vec(), amt(500), b"bafyjust-cooldown-2".to_vec()),
        Err("replenishment rate limit: 1 per 90 days per project")
    );
}

#[test]
fn buffer_pool_fully_depleted_governance_required_rs() {
    let mut sc = deploy_and_deposit();
    sc.cancel_buffer_credits(&call("governance"), b"project-010".to_vec(), amt(10_000), b"bafyreason-deplete".to_vec()).unwrap();
    assert_eq!(
        sc.replenish_buffer_credits(&call("carbon-credit"), b"project-010".to_vec(), amt(100), b"bafyjust-depleted".to_vec()),
        Err("buffer fully depleted \u{2014} governance approval required for any replenishment")
    );
}

#[test]
fn mrv_lifecycle_auth_boundaries() {
    let mut sc = deploy();
    assert_eq!(
        sc.add_authorized_caller(&call("unauthorized"), addr("unauthorized")),
        Err("caller not authorized")
    );
}

#[test]
fn buffer_pool_events_carry_project_and_amount() {
    let mut sc = deploy();
    assert_eq!(
        sc.deposit_buffer_credits(&call("carbon-credit"), b"p-1".to_vec(), amt(10_000), 1),
        Ok(BufferPoolEvent::Deposited { project_id: b"p-1".to_vec(), amount: amt(10_000) })
    );
    assert_eq!(
        sc.cancel_buffer_credits(&call("governance"), b"p-1".to_vec(), amt(1_000), b"bafy-fire".to_vec()),
        Ok(BufferPoolEvent::Cancelled { project_id: b"p-1".to_vec(), reason_cid: b"bafy-fire".to_vec(), amount: amt(1_000) })
    );
    // 900 is within 10% of the 9_000 live buffer: one event.
    assert_eq!(
        sc.replenish_buffer_credits(&call_at("carbon-credit", 0), b"p-1".to_vec(), amt(900), b"bafy-j1".to_vec()),
        Ok(vec![BufferPoolEvent::Replenished { project_id: b"p-1".to_vec(), amount: amt(900) }])
    );
    // Governance may replenish above the threshold; the notice comes first.
    assert_eq!(
        sc.replenish_buffer_credits(&call_at("governance", 1_500), b"p-1".to_vec(), amt(5_000), b"bafy-j2".to_vec()),
        Ok(vec![
            BufferPoolEvent::ReplenishmentGovernanceRequired { project_id: b"p-1".to_vec(), amount: amt(5_000) },
            BufferPoolEvent::Replenished { project_id: b"p-1".to_vec(), amount: amt(5_000) },
        ])
    );
    assert_eq!(
        sc.add_authorized_caller(&call("governance"), addr("relay")),
        Ok(BufferPoolEvent::AuthorizedCallerAdded { caller: addr("relay") })
    );
    assert_eq!(
        sc.remove_authorized_caller(&call("governance"), addr("relay")),
        Ok(BufferPoolEvent::AuthorizedCallerRemoved { caller: addr("relay") })
    );
}

#[test]
fn mrv_buffer_pool_deposit_and_replenishment_flow() {
    let mut sc = deploy();
    sc.add_authorized_caller(&call("owner"), addr("governance")).unwrap();

    sc.deposit_buffer_credits(&call("governance"), b"PROJECT-ALPHA".to_vec(), amt(100_000), 1).unwrap();
    let record = sc.get_buffer_record(b"PROJECT-ALPHA");
    assert!(record.is_some(), "buffer record should exist");
    let r = record.unwrap();
    assert_eq!(r.total_deposited, amt(100_000));
    assert_eq!(r.total_cancelled, amt(0));
    assert_eq!(r.total_replenished, amt(0));

    sc.deposit_buffer_credits(&call("governance"), b"PROJECT-ALPHA".to_vec(), amt(50_000), 2).unwrap();
    assert_eq!(sc.get_buffer_record(b"PROJECT-ALPHA").unwrap().total_deposited, amt(150_000));
    assert_eq!(sc.get_total_pool_balance(), amt(150_000));

    sc.replenish_buffer_credits(&call("governance"), b"PROJECT-ALPHA".to_vec(), amt(10_000), b"justification-cid-001".to_vec())
        .unwrap();
    assert_eq!(sc.get_buffer_record(b"PROJECT-ALPHA").unwrap().total_replenished, amt(10_000));
    assert_eq!(sc.get_total_pool_balance(), amt(160_000));
}

#[test]
fn buffer_pool_amounts_have_no_upper_bound() {
    let mut sc = deploy();
    let big = BigAmount::from_u128(u128::MAX);
    sc.deposit_buffer_credits(&call("carbon-credit"), b"p-big".to_vec(), big.clone(), 1).unwrap();
    sc.deposit_buffer_credits(&call("carbon-credit"), b"p-big".to_vec(), big, 2).unwrap();
    // 2 * (2^128 - 1) = 2^129 - 2
    let mut expected = vec![0x01u8];
    expected.extend(vec![0xffu8; 15]);
    expected.push(0xfe);
    assert_eq!(sc.get_total_pool_balance(), BigAmount::from_be_bytes(expected.clone()));
    assert_eq!(sc.get_buffer_record(b"p-big").unwrap().total_deposited, BigAmount::from_be_bytes(expected));
    // cancelling all of it brings the pool back to zero
    let all = sc.get_total_pool_balance();
    sc.cancel_buffer_credits(&call("governance"), b"p-big".to_vec(), all, b"bafy-all".to_vec()).unwrap();
    assert_eq!(sc.get_total_pool_balance(), amt(0));
}
