use mrv_drwa::atomic_swap::{
    decode_esdt_token, AtomicSwap, AtomicSwapEvent, AtomicSwapState, RFQ_CANCELLED, RFQ_COMPLETED, RFQ_DEPOSITED, RFQ_EXPIRED,
};
use mrv_drwa::amount::BigAmount;
use mrv_drwa::env::{BlockchainEnv, Payment};
use mrv_drwa::mrv_common::PauseProbe;

const COME: &[u8] = b"COME-abcdef";
const RWA: &[u8] = b"HOTEL-ab12cd";
const UNPAUSED: PauseProbe = PauseProbe { authority_is_smart_contract: false, governance_paused: false };

/// A 32-byte test address: the name padded with underscores.
fn addr(name: &str) -> Vec<u8> {
    let mut a = name.as_bytes().to_vec();
    a.resize(32, b'_');
    a
}

fn at(caller: &str, epoch: u64) -> BlockchainEnv {
    BlockchainEnv {
        caller: addr(caller),
        owner: addr("owner"),
        contract: addr("atomic-swap"),
        block_round: 0,
        block_epoch: epoch,
        block_timestamp: 0,
    }
}

fn amt(n: u128) -> BigAmount {
    BigAmount::from_u128(n)
}

fn pay(token: &[u8], amount: u128) -> Payment {
    Payment { token_id: token.to_vec(), token_nonce: 0, amount: amt(amount) }
}

fn create(sc: &mut AtomicSwapState, rfq: &[u8], token: &[u8]) -> Result<AtomicSwapEvent, &'static str> {
    sc.create_rfq(&at("owner", 10), &UNPAUSED, rfq.to_vec(), addr("buyer"), addr("dealer"), token.to_vec(), amt(5), amt(500), amt(100), 20)
}

fn deploy_with_deposit() -> AtomicSwapState {
    let mut sc = AtomicSwapState::init(&at("owner", 0), COME.to_vec()).unwrap();
    sc.allow_asset_token(&at("owner", 0), RWA.to_vec()).unwrap();
    create(&mut sc, b"rfq-1", RWA).unwrap();
    sc.deposit_margin(&at("buyer", 11), &UNPAUSED, b"rfq-1".to_vec(), &pay(COME, 500), amt(500)).unwrap();
    sc
}

#[test]
fn esdt_arguments_exclude_the_native_token() {
    assert_eq!(decode_esdt_token(b""), Err("ESDT expected"));
    assert_eq!(decode_esdt_token(b"EGLD"), Err("ESDT expected"));
    assert_eq!(decode_esdt_token(b"EGLD-000000"), Err("ESDT expected"));
    assert_eq!(decode_esdt_token(b"HOTEL-ab12cd"), Ok(()));
}

#[test]
fn create_rfq_checks_the_token_identifier() {
    let mut sc = AtomicSwapState::init(&at("owner", 0), COME.to_vec()).unwrap();
    assert_eq!(create(&mut sc, b"rfq-1", b"hotel-ab12cd"), Err("invalid token_id"));
    assert_eq!(create(&mut sc, b"rfq-1", b"HOTEL-AB12CD"), Err("invalid token_id"));
    assert_eq!(create(&mut sc, b"rfq-1", b"HOTELab12cd"), Err("invalid token_id"));
    assert_eq!(create(&mut sc, b"rfq-1", RWA), Err("asset token not allowed"));
    assert_eq!(sc.allow_asset_token(&at("owner", 0), RWA.to_vec()), Ok(AtomicSwapEvent::AssetTokenAllowed { token_id: RWA.to_vec() }));
    assert_eq!(create(&mut sc, b"rfq-1", RWA), Ok(AtomicSwapEvent::RfqCreated { rfq_id: b"rfq-1".to_vec() }));
    assert_eq!(create(&mut sc, b"rfq-1", RWA), Err("RFQ already exists"));
    assert_eq!(
        sc.create_rfq(&at("buyer", 10), &UNPAUSED, b"rfq-2".to_vec(), addr("buyer"), addr("dealer"), RWA.to_vec(), amt(5), amt(500), amt(100), 20),
        Err("only owner can create RFQs")
    );
    assert_eq!(
        sc.create_rfq(&at("owner", 10), &UNPAUSED, b"rfq-2".to_vec(), addr("buyer"), addr("buyer"), RWA.to_vec(), amt(5), amt(500), amt(100), 20),
        Err("buyer and dealer must be distinct")
    );
    assert_eq!(
        sc.create_rfq(&at("owner", 20), &UNPAUSED, b"rfq-2".to_vec(), addr("buyer"), addr("dealer"), RWA.to_vec(), amt(5), amt(500), amt(100), 20),
        Err("expiry must be in the future")
    );
}

#[test]
fn deposit_locks_the_exact_margin() {
    let mut sc = AtomicSwapState::init(&at("owner", 0), COME.to_vec()).unwrap();
    sc.allow_asset_token(&at("owner", 0), RWA.to_vec()).unwrap();
    create(&mut sc, b"rfq-1", RWA).unwrap();
    assert_eq!(
        sc.deposit_margin(&at("dealer", 11), &UNPAUSED, b"rfq-1".to_vec(), &pay(COME, 500), amt(500)),
        Err("only buyer can deposit margin")
    );
    assert_eq!(
        sc.deposit_margin(&at("buyer", 11), &UNPAUSED, b"rfq-1".to_vec(), &pay(RWA, 500), amt(500)),
        Err("must deposit COME token")
    );
    assert_eq!(
        sc.deposit_margin(&at("buyer", 11), &UNPAUSED, b"rfq-1".to_vec(), &pay(COME, 499), amt(499)),
        Err("WRONG_MARGIN_AMOUNT")
    );
    assert_eq!(
        sc.deposit_margin(&at("buyer", 11), &UNPAUSED, b"rfq-1".to_vec(), &pay(COME, 500), amt(499)),
        Err("LOCKED_BALANCE_NOT_BACKED: escrow balance mismatch")
    );
    assert_eq!(
        sc.deposit_margin(&at("buyer", 11), &UNPAUSED, b"rfq-1".to_vec(), &pay(COME, 500), amt(500)),
        Ok(AtomicSwapEvent::MarginDeposited { rfq_id: b"rfq-1".to_vec(), amount: amt(500) })
    );
    assert_eq!(sc.get_locked_balance(&addr("buyer")), amt(500));
    let rfq = sc.get_rfq(b"rfq-1").unwrap();
    assert_eq!(rfq.status, RFQ_DEPOSITED);
    assert_eq!(rfq.funded_epoch, 11);
}

#[test]
fn settle_swaps_the_asset_for_the_margin() {
    let mut sc = deploy_with_deposit();
    assert_eq!(sc.settle(&at("buyer", 12), &UNPAUSED, b"rfq-1".to_vec(), &pay(RWA, 5), amt(500)).err(), Some("ONLY_DEALER"));
    assert_eq!(sc.settle(&at("dealer", 12), &UNPAUSED, b"rfq-1".to_vec(), &pay(RWA, 4), amt(500)).err(), Some("wrong RWA quantity"));
    assert_eq!(sc.settle(&at("dealer", 21), &UNPAUSED, b"rfq-1".to_vec(), &pay(RWA, 5), amt(500)).err(), Some("EXPIRED"));
    let (transfers, event) = sc.settle(&at("dealer", 12), &UNPAUSED, b"rfq-1".to_vec(), &pay(RWA, 5), amt(500)).unwrap();
    assert_eq!(event, AtomicSwapEvent::RfqSettled { rfq_id: b"rfq-1".to_vec(), buyer: addr("buyer"), dealer: addr("dealer") });
    assert_eq!(transfers.len(), 2);
    assert_eq!((transfers[0].to.clone(), transfers[0].token_id.clone(), transfers[0].amount.clone()), (addr("buyer"), RWA.to_vec(), amt(5)));
    assert_eq!((transfers[1].to.clone(), transfers[1].token_id.clone(), transfers[1].amount.clone()), (addr("dealer"), COME.to_vec(), amt(500)));
    assert_eq!(sc.get_rfq(b"rfq-1").unwrap().status, RFQ_COMPLETED);
    assert_eq!(sc.get_locked_balance(&addr("buyer")), amt(0));
    // A closed RFQ cannot be released again.
    assert_eq!(sc.cancel_rfq(&at("buyer", 12), &UNPAUSED, b"rfq-1".to_vec(), amt(0)).err(), Some("NOT_DEPOSITED"));
}

#[test]
fn reclaim_after_expiry_and_cancel_return_the_margin() {
    let mut sc = deploy_with_deposit();
    assert_eq!(sc.auto_reclaim(&at("anyone", 20), &UNPAUSED, b"rfq-1".to_vec(), amt(500)).err(), Some("NOT_EXPIRED"));
    let (t, event) = sc.auto_reclaim(&at("anyone", 21), &UNPAUSED, b"rfq-1".to_vec(), amt(500)).unwrap();
    assert_eq!(event, AtomicSwapEvent::MarginReturned { rfq_id: b"rfq-1".to_vec(), amount: amt(500), recipient: addr("buyer") });
    assert_eq!(t.len(), 1);
    assert_eq!((t[0].to.clone(), t[0].token_id.clone(), t[0].amount.clone()), (addr("buyer"), COME.to_vec(), amt(500)));
    assert_eq!(sc.get_rfq(b"rfq-1").unwrap().status, RFQ_EXPIRED);

    let mut sc = deploy_with_deposit();
    assert_eq!(sc.cancel_rfq(&at("dealer", 12), &UNPAUSED, b"rfq-1".to_vec(), amt(500)).err(), Some("only buyer can cancel"));
    let (t, event) = sc.cancel_rfq(&at("buyer", 12), &UNPAUSED, b"rfq-1".to_vec(), amt(500)).unwrap();
    assert_eq!(event, AtomicSwapEvent::MarginReturned { rfq_id: b"rfq-1".to_vec(), amount: amt(500), recipient: addr("buyer") });
    assert_eq!((t[0].to.clone(), t[0].amount.clone()), (addr("buyer"), amt(500)));
    assert_eq!(sc.get_rfq(b"rfq-1").unwrap().status, RFQ_CANCELLED);
    assert_eq!(sc.get_locked_balance(&addr("buyer")), amt(0));
}

#[test]
fn removing_an_asset_token_emits_it() {
    let mut sc = AtomicSwapState::init(&at("owner", 0), COME.to_vec()).unwrap();
    sc.allow_asset_token(&at("owner", 0), RWA.to_vec()).unwrap();
    assert_eq!(sc.remove_asset_token(&at("owner", 0), RWA.to_vec()), Ok(AtomicSwapEvent::AssetTokenRemoved { token_id: RWA.to_vec() }));
    assert!(!sc.is_asset_token_allowed(RWA));
    assert_eq!(sc.remove_asset_token(&at("owner", 0), RWA.to_vec()), Err("asset token not allowed"));
}
