//! Escrow-based RFQ settlement: the buyer escrows COME margin, the dealer
//! delivers the asset tokens, and the margin goes to the dealer on
//! settlement or back to the buyer on expiry or cancellation.
use vstd::prelude::*;

use crate::amount::BigAmount;
use crate::bytes::{bytes_eq, copy_bytes, is_zero_address, lit, zero_address};
use crate::crypto::{esdt_identifier_valid, is_valid_esdt_identifier, legacy_native_token};
use crate::env::{BlockchainEnv, Payment, Transfer};
use crate::mrv_common::{
    not_paused_error, require_not_paused, storage_version_upgrade_spec, upgrade_storage_version, PauseProbe,
};
use crate::ledger::{lemma_value_sum_covers, lemma_value_sum_insert, value_sum};
use crate::table::Table;

verus! {

pub const RFQ_PENDING_DEPOSIT: u8 = 0;

pub const RFQ_DEPOSITED: u8 = 1;

/// Settled (status `2` is reserved).
pub const RFQ_COMPLETED: u8 = 3;

pub const RFQ_EXPIRED: u8 = 4;

pub const RFQ_CANCELLED: u8 = 5;

/// Escrowed RFQ lifecycle record tracking margin deposit, settlement, and expiry.
pub struct EscrowedRfqRecord {
    pub rfq_id: Vec<u8>,
    pub buyer: Vec<u8>,
    pub dealer: Vec<u8>,
    pub token_id: Vec<u8>,
    pub quantity: BigAmount,
    pub margin_amount: BigAmount,
    pub price_come_per_unit: BigAmount,
    pub funded_epoch: u64,
    pub expiry_epoch: u64,
    pub status: u8,
}

/// The storage of the swap contract.
pub struct AtomicSwapState {
    pub come_token_id: Vec<u8>,
    pub rfqs: Table<EscrowedRfqRecord>,
    /// Escrowed margin per buyer; an absent entry reads as `0`.
    pub locked_balances: Table<BigAmount>,
    pub governance_read_address: Option<Vec<u8>>,
    pub allowed_asset_tokens: Table<()>,
    pub storage_version: u32,
}

/// The native token's identifier, which an ESDT argument must not be.
pub open spec fn native_token_id() -> Seq<u8> {
    lit("EGLD-000000")
}

/// Why a token-identifier argument does not decode as an ESDT: the empty
/// string and the legacy `EGLD` both mean the native token.
pub open spec fn esdt_decode_error(t: Seq<u8>) -> Option<&'static str> {
    if t == Seq::<u8>::empty() || t == legacy_native_token() || t == native_token_id() {
        Some("ESDT expected")
    } else {
        None
    }
}

/// Decodes a token-identifier argument as an ESDT identifier.
pub fn decode_esdt_token(t: &[u8]) -> (r: Result<(), &'static str>)
    ensures
        match esdt_decode_error(t@) {
            Some(e) => r == Err::<(), &'static str>(e),
            None => r is Ok,
        },
{
    let egld: [u8; 4] = [69u8, 71u8, 76u8, 68u8];
    assert(egld@ == legacy_native_token());
    if t.len() == 0 || bytes_eq(t, egld.as_slice()) || bytes_eq(t, "EGLD-000000".as_bytes()) {
        assert(t@.len() == 0 ==> t@ == Seq::<u8>::empty());
        return Err("ESDT expected");
    }
    Ok(())
}

// ── escrow accounting ───────────────────────────────────────────────────

/// The margin an RFQ holds in escrow for `buyer`: its margin while it is
/// deposited and `buyer` is its buyer, nothing otherwise.
pub open spec fn escrowed_margin(r: EscrowedRfqRecord, buyer: Seq<u8>) -> int {
    if r.status == RFQ_DEPOSITED && r.buyer@ == buyer { r.margin_amount@ as int } else { 0 }
}

/// The escrowed margin of each RFQ for `buyer`, as a weight to sum.
pub open spec fn escrow_weight(buyer: Seq<u8>) -> spec_fn(EscrowedRfqRecord) -> int {
    |r: EscrowedRfqRecord| escrowed_margin(r, buyer)
}

/// The margins that all RFQs hold in escrow for `buyer`.
pub open spec fn escrow_sum(rfqs: Map<Seq<u8>, EscrowedRfqRecord>, buyer: Seq<u8>) -> int {
    value_sum(rfqs, rfqs.dom(), escrow_weight(buyer))
}

/// A map's value at `k`, reading `0` when absent.
pub open spec fn balance_of(balances: Map<Seq<u8>, BigAmount>, k: Seq<u8>) -> nat {
    if balances.contains_key(k) { balances[k]@ } else { 0 }
}

/// Every buyer's locked balance is exactly the margin its deposited RFQs
/// hold in escrow.
pub open spec fn escrow_consistent(rfqs: Map<Seq<u8>, EscrowedRfqRecord>, locked: Map<Seq<u8>, BigAmount>) -> bool {
    &&& rfqs.dom().finite()
    &&& forall|b: Seq<u8>| #[trigger] balance_of(locked, b) == escrow_sum(rfqs, b)
}

/// The accounting stays consistent when the record at `k` becomes `r` and
/// each balance moves by the change in escrowed margin.
proof fn lemma_escrow_step(
    rfqs: Map<Seq<u8>, EscrowedRfqRecord>,
    locked: Map<Seq<u8>, BigAmount>,
    k: Seq<u8>,
    r: EscrowedRfqRecord,
    locked2: Map<Seq<u8>, BigAmount>,
)
    requires
        escrow_consistent(rfqs, locked),
        forall|b: Seq<u8>|
            #[trigger] balance_of(locked2, b) == balance_of(locked, b) - (if rfqs.contains_key(k) {
                escrowed_margin(rfqs[k], b)
            } else {
                0
            }) + escrowed_margin(r, b),
    ensures
        escrow_consistent(rfqs.insert(k, r), locked2),
{
    assert(rfqs.insert(k, r).dom() =~= rfqs.dom().insert(k));
    assert forall|b: Seq<u8>| #[trigger] balance_of(locked2, b) == escrow_sum(rfqs.insert(k, r), b) by {
        lemma_value_sum_insert(rfqs, k, r, escrow_weight(b));
        assert(balance_of(locked, b) == escrow_sum(rfqs, b));
    }
}

impl AtomicSwapState {
    /// The tables are well formed and every buyer's locked balance is the
    /// margin its deposited RFQs hold in escrow.
    pub open spec fn wf(&self) -> bool {
        &&& self.rfqs.wf()
        &&& self.locked_balances.wf()
        &&& self.allowed_asset_tokens.wf()
        &&& escrow_consistent(self.rfqs@, self.locked_balances@)
    }

    pub open spec fn locked(&self, holder: Seq<u8>) -> nat {
        balance_of(self.locked_balances@, holder)
    }

    pub open spec fn paused_error(&self, probe: PauseProbe) -> Option<&'static str> {
        not_paused_error(self.governance_read_address is Some, probe)
    }

    pub open spec fn owner_error(env: &BlockchainEnv) -> Option<&'static str> {
        if env.caller@ == env.owner@ { None } else { Some("Endpoint can only be called by owner") }
    }

    /// The buyer's escrow must be covered by the contract's COME balance.
    pub open spec fn backing_error(locked: nat, escrow_balance: nat) -> Option<&'static str> {
        if locked != 0 && locked > escrow_balance {
            Some("LOCKED_BALANCE_NOT_BACKED: escrow balance mismatch")
        } else {
            None
        }
    }

    pub open spec fn create_rfq_error(
        &self,
        env: &BlockchainEnv,
        probe: PauseProbe,
        rfq_id: Seq<u8>,
        buyer: Seq<u8>,
        dealer: Seq<u8>,
        token_id: Seq<u8>,
        quantity: BigAmount,
        margin_amount: BigAmount,
        price_come_per_unit: BigAmount,
        expiry_epoch: u64,
    ) -> Option<&'static str> {
        if esdt_decode_error(token_id) is Some {
            esdt_decode_error(token_id)
        } else if self.paused_error(probe) is Some {
            self.paused_error(probe)
        } else if env.caller@ != env.owner@ {
            Some("only owner can create RFQs")
        } else if rfq_id.len() == 0 {
            Some("empty rfq_id")
        } else if buyer == zero_address() {
            Some("buyer must not be zero")
        } else if dealer == zero_address() {
            Some("dealer must not be zero")
        } else if buyer == dealer {
            Some("buyer and dealer must be distinct")
        } else if !esdt_identifier_valid(token_id) {
            Some("invalid token_id")
        } else if !self.allowed_asset_tokens@.contains_key(token_id) {
            Some("asset token not allowed")
        } else if quantity@ == 0 {
            Some("quantity must be positive")
        } else if margin_amount@ == 0 {
            Some("margin must be positive")
        } else if price_come_per_unit@ == 0 {
            Some("price must be positive")
        } else if expiry_epoch <= env.block_epoch {
            Some("expiry must be in the future")
        } else if self.rfqs@.contains_key(rfq_id) {
            Some("RFQ already exists")
        } else {
            None
        }
    }

    pub open spec fn deposit_error(
        &self,
        env: &BlockchainEnv,
        probe: PauseProbe,
        rfq_id: Seq<u8>,
        payment: Payment,
        escrow_balance: BigAmount,
    ) -> Option<&'static str> {
        let rfq = self.rfqs@[rfq_id];
        if self.paused_error(probe) is Some {
            self.paused_error(probe)
        } else if !self.rfqs@.contains_key(rfq_id) {
            Some("RFQ not found")
        } else if rfq.status != RFQ_PENDING_DEPOSIT {
            Some("NOT_AWAITING_DEPOSIT")
        } else if env.caller@ != rfq.buyer@ {
            Some("only buyer can deposit margin")
        } else if payment.token_id@ != self.come_token_id@ {
            Some("must deposit COME token")
        } else if payment.token_nonce != 0 {
            Some("FUNGIBLE_ONLY: token nonce must be 0")
        } else if payment.amount@ != rfq.margin_amount@ {
            Some("WRONG_MARGIN_AMOUNT")
        } else if Self::backing_error(self.locked(rfq.buyer@) + payment.amount@, escrow_balance@) is Some {
            Self::backing_error(self.locked(rfq.buyer@) + payment.amount@, escrow_balance@)
        } else {
            None
        }
    }

    /// The checks shared by the three ways an escrow is released.
    pub open spec fn release_error(&self, rfq_id: Seq<u8>, escrow_balance: BigAmount) -> Option<&'static str> {
        let rfq = self.rfqs@[rfq_id];
        if Self::backing_error(self.locked(rfq.buyer@), escrow_balance@) is Some {
            Self::backing_error(self.locked(rfq.buyer@), escrow_balance@)
        } else if self.locked(rfq.buyer@) < rfq.margin_amount@ {
            Some("LOCKED_BALANCE_UNDERFLOW: accounting discrepancy")
        } else {
            None
        }
    }

    pub open spec fn settle_error(
        &self,
        env: &BlockchainEnv,
        probe: PauseProbe,
        rfq_id: Seq<u8>,
        payment: Payment,
        escrow_balance: BigAmount,
    ) -> Option<&'static str> {
        let rfq = self.rfqs@[rfq_id];
        if self.paused_error(probe) is Some {
            self.paused_error(probe)
        } else if !self.rfqs@.contains_key(rfq_id) {
            Some("RFQ not found")
        } else if rfq.status != RFQ_DEPOSITED {
            Some("NOT_DEPOSITED")
        } else if env.block_epoch > rfq.expiry_epoch {
            Some("EXPIRED")
        } else if env.caller@ != rfq.dealer@ {
            Some("ONLY_DEALER")
        } else if payment.token_id@ != rfq.token_id@ {
            Some("wrong RWA token")
        } else if payment.amount@ != rfq.quantity@ {
            Some("wrong RWA quantity")
        } else {
            self.release_error(rfq_id, escrow_balance)
        }
    }

    pub open spec fn reclaim_error(&self, env: &BlockchainEnv, probe: PauseProbe, rfq_id: Seq<u8>, escrow_balance: BigAmount) -> Option<
        &'static str,
    > {
        let rfq = self.rfqs@[rfq_id];
        if self.paused_error(probe) is Some {
            self.paused_error(probe)
        } else if !self.rfqs@.contains_key(rfq_id) {
            Some("RFQ not found")
        } else if rfq.status != RFQ_DEPOSITED {
            Some("NOT_DEPOSITED")
        } else if env.block_epoch <= rfq.expiry_epoch {
            Some("NOT_EXPIRED")
        } else {
            self.release_error(rfq_id, escrow_balance)
        }
    }

    pub open spec fn cancel_error(&self, env: &BlockchainEnv, probe: PauseProbe, rfq_id: Seq<u8>, escrow_balance: BigAmount) -> Option<
        &'static str,
    > {
        let rfq = self.rfqs@[rfq_id];
        if self.paused_error(probe) is Some {
            self.paused_error(probe)
        } else if !self.rfqs@.contains_key(rfq_id) {
            Some("RFQ not found")
        } else if rfq.status != RFQ_DEPOSITED {
            Some("NOT_DEPOSITED")
        } else if env.caller@ != rfq.buyer@ {
            Some("only buyer can cancel")
        } else {
            self.release_error(rfq_id, escrow_balance)
        }
    }

    /// `after` is this state with RFQ `rfq_id` released into status
    /// `status`: the buyer's escrow shrinks by the margin.
    pub open spec fn released(&self, after: Self, rfq_id: Seq<u8>, status: u8) -> bool {
        let rfq = self.rfqs@[rfq_id];
        &&& after.rfqs@ == self.rfqs@.insert(rfq_id, EscrowedRfqRecord { status, ..rfq })
        &&& after.locked_balances@ == self.locked_balances@.insert(rfq.buyer@, after.locked_balances@[rfq.buyer@])
        &&& after.locked_balances@[rfq.buyer@]@ == self.locked(rfq.buyer@) - rfq.margin_amount@
        &&& after.come_token_id == self.come_token_id
        &&& after.governance_read_address == self.governance_read_address
        &&& after.allowed_asset_tokens == self.allowed_asset_tokens
        &&& after.storage_version == self.storage_version
    }
}

/// The events of the atomic swap.
#[derive(Debug, PartialEq, Eq)]
pub enum AtomicSwapEvent {
    /// `assetTokenAllowed`.
    AssetTokenAllowed { token_id: Vec<u8> },
    /// `assetTokenRemoved`.
    AssetTokenRemoved { token_id: Vec<u8> },
    /// `rfqCreated`.
    RfqCreated { rfq_id: Vec<u8> },
    /// `marginDeposited`.
    MarginDeposited { rfq_id: Vec<u8>, amount: BigAmount },
    /// `rfqSettled`.
    RfqSettled { rfq_id: Vec<u8>, buyer: Vec<u8>, dealer: Vec<u8> },
    /// `marginReturned`: the margin went back to `recipient`.
    MarginReturned { rfq_id: Vec<u8>, amount: BigAmount, recipient: Vec<u8> },
}

/// The endpoints of the swap contract.
pub trait AtomicSwap: Sized {
    spec fn valid(&self) -> bool;

    fn init(env: &BlockchainEnv, come_token_id: Vec<u8>) -> (r: Result<Self, &'static str>)
        ensures
            r matches Ok(s) ==> s.valid();

    fn set_governance_read_address(&mut self, env: &BlockchainEnv, addr: Vec<u8>) -> (r: Result<(), &'static str>)
        requires old(self).valid(), ensures final(self).valid();

    fn clear_governance_read_address(&mut self, env: &BlockchainEnv) -> (r: Result<(), &'static str>)
        requires old(self).valid(), ensures final(self).valid();

    fn allow_asset_token(&mut self, env: &BlockchainEnv, token_id: Vec<u8>) -> (r: Result<AtomicSwapEvent, &'static str>)
        requires old(self).valid(), ensures final(self).valid();

    fn remove_asset_token(&mut self, env: &BlockchainEnv, token_id: Vec<u8>) -> (r: Result<AtomicSwapEvent, &'static str>)
        requires old(self).valid(), ensures final(self).valid();

    fn create_rfq(
        &mut self,
        env: &BlockchainEnv,
        probe: &PauseProbe,
        rfq_id: Vec<u8>,
        buyer: Vec<u8>,
        dealer: Vec<u8>,
        token_id: Vec<u8>,
        quantity: BigAmount,
        margin_amount: BigAmount,
        price_come_per_unit: BigAmount,
        expiry_epoch: u64,
    ) -> (r: Result<AtomicSwapEvent, &'static str>)
        requires old(self).valid(), ensures final(self).valid();

    fn deposit_margin(&mut self, env: &BlockchainEnv, probe: &PauseProbe, rfq_id: Vec<u8>, payment: &Payment, escrow_balance: BigAmount) -> (r: Result<AtomicSwapEvent, &'static str>)
        requires old(self).valid(), ensures final(self).valid();

    fn settle(&mut self, env: &BlockchainEnv, probe: &PauseProbe, rfq_id: Vec<u8>, payment: &Payment, escrow_balance: BigAmount) -> (r: Result<(Vec<Transfer>, AtomicSwapEvent), &'static str>)
        requires old(self).valid(), ensures final(self).valid();

    fn auto_reclaim(&mut self, env: &BlockchainEnv, probe: &PauseProbe, rfq_id: Vec<u8>, escrow_balance: BigAmount) -> (r: Result<(Vec<Transfer>, AtomicSwapEvent), &'static str>)
        requires old(self).valid(), ensures final(self).valid();

    fn cancel_rfq(&mut self, env: &BlockchainEnv, probe: &PauseProbe, rfq_id: Vec<u8>, escrow_balance: BigAmount) -> (r: Result<(Vec<Transfer>, AtomicSwapEvent), &'static str>)
        requires old(self).valid(), ensures final(self).valid();

    fn upgrade(&mut self) -> (r: Result<(), &'static str>)
        requires old(self).valid(), ensures final(self).valid();
}

/// Checks a token-identifier argument: it must decode as an ESDT and be a
/// valid identifier.
fn valid_esdt_argument(t: &[u8], invalid: &'static str) -> (r: Result<(), &'static str>)
    ensures
        esdt_decode_error(t@) is Some ==> r == Err::<(), &'static str>(esdt_decode_error(t@)->0),
        esdt_decode_error(t@) is None ==> (if esdt_identifier_valid(t@) { r is Ok } else { r == Err::<(), &'static str>(invalid) }),
{
    if let Err(e) = decode_esdt_token(t) {
        return Err(e);
    }
    if !is_valid_esdt_identifier(t) {
        return Err(invalid);
    }
    Ok(())
}

impl AtomicSwapState {
    fn locked_of(&self, holder: &[u8]) -> (r: BigAmount)
        requires
            self.wf(),
        ensures
            r@ == self.locked(holder@),
    {
        match self.locked_balances.get(holder) {
            Some(b) => b.copy(),
            None => BigAmount::zero(),
        }
    }

    fn require_locked_balance_backed(locked: &BigAmount, escrow_balance: &BigAmount) -> (r: Result<(), &'static str>)
        ensures
            match Self::backing_error(locked@, escrow_balance@) {
                Some(e) => r == Err::<(), &'static str>(e),
                None => r is Ok,
            },
    {
        if locked.is_zero() {
            return Ok(());
        }
        if !locked.at_most(escrow_balance) {
            return Err("LOCKED_BALANCE_NOT_BACKED: escrow balance mismatch");
        }
        Ok(())
    }

    /// Releases a deposited RFQ's escrow into `status`, checking that the
    /// buyer's escrow is backed and covers the margin.
    fn release(&mut self, rfq_id: &Vec<u8>, escrow_balance: &BigAmount, status: u8) -> (r: Result<(Vec<u8>, Vec<u8>, Vec<u8>, BigAmount, BigAmount), &'static str>)
        requires
            old(self).wf(),
            old(self).rfqs@.contains_key(rfq_id@),
            old(self).rfqs@[rfq_id@].status == RFQ_DEPOSITED,
            status != RFQ_DEPOSITED,
        ensures
            final(self).wf(),
            match old(self).release_error(rfq_id@, *escrow_balance) {
                Some(e) => r == Err::<(Vec<u8>, Vec<u8>, Vec<u8>, BigAmount, BigAmount), &'static str>(e) && *final(self) == *old(self),
                None => {
                    let rfq = old(self).rfqs@[rfq_id@];
                    &&& r matches Ok(x) && x.0@ == rfq.buyer@ && x.1@ == rfq.dealer@ && x.2@ == rfq.token_id@
                        && x.3@ == rfq.quantity@ && x.4@ == rfq.margin_amount@
                    &&& old(self).released(*final(self), rfq_id@, status)
                },
            },
    {
        let (buyer, dealer, token_id, quantity, margin) = match self.rfqs.get(rfq_id) {
            Some(rfq) => (copy_bytes(&rfq.buyer), copy_bytes(&rfq.dealer), copy_bytes(&rfq.token_id), rfq.quantity.copy(), rfq.margin_amount.copy()),
            None => {
                return Err("RFQ not found");
            },
        };
        let buyer_locked = self.locked_of(&buyer);
        if let Err(e) = Self::require_locked_balance_backed(&buyer_locked, escrow_balance) {
            return Err(e);
        }
        if !margin.at_most(&buyer_locked) {
            return Err("LOCKED_BALANCE_UNDERFLOW: accounting discrepancy");
        }
        self.locked_balances.insert(copy_bytes(&buyer), buyer_locked.minus(&margin));
        let ghost k = rfq_id@;
        let ghost closed = EscrowedRfqRecord { status, ..old(self).rfqs@[k] };
        let taken = self.rfqs.take(rfq_id);
        match taken {
            Some(rfq) => {
                self.rfqs.insert(copy_bytes(rfq_id), EscrowedRfqRecord { status, ..rfq });
                assert(self.rfqs@ =~= old(self).rfqs@.insert(k, closed));
            },
            None => {},
        }
        proof {
            let prev = old(self).rfqs@[k];
            assert forall|b: Seq<u8>|
                #[trigger] balance_of(self.locked_balances@, b) == balance_of(old(self).locked_balances@, b) - (if old(
                    self,
                ).rfqs@.contains_key(k) {
                    escrowed_margin(old(self).rfqs@[k], b)
                } else {
                    0
                }) + escrowed_margin(closed, b) by {
                if b == prev.buyer@ {
                } else {
                }
            }
            lemma_escrow_step(old(self).rfqs@, old(self).locked_balances@, k, closed, self.locked_balances@);
        }
        Ok((buyer, dealer, token_id, quantity, margin))
    }
}

impl AtomicSwap for AtomicSwapState {
    open spec fn valid(&self) -> bool {
        self.wf()
    }

    fn init(env: &BlockchainEnv, come_token_id: Vec<u8>) -> (r: Result<Self, &'static str>)
        ensures
            esdt_decode_error(come_token_id@) is Some ==> r == Err::<Self, &'static str>(esdt_decode_error(come_token_id@)->0),
            esdt_decode_error(come_token_id@) is None && !esdt_identifier_valid(come_token_id@) ==> r == Err::<Self, &'static str>(
                "invalid COME token ID",
            ),
            esdt_decode_error(come_token_id@) is None && esdt_identifier_valid(come_token_id@) ==> (r matches Ok(s) && {
                &&& s.wf()
                &&& s.come_token_id == come_token_id
                &&& s.rfqs@ == Map::<Seq<u8>, EscrowedRfqRecord>::empty()
                &&& s.locked_balances@ == Map::<Seq<u8>, BigAmount>::empty()
                &&& s.allowed_asset_tokens@ == Map::<Seq<u8>, ()>::empty()
                &&& s.governance_read_address is None
                &&& s.storage_version == 1
            }),
    {
        if let Err(e) = valid_esdt_argument(&come_token_id, "invalid COME token ID") {
            return Err(e);
        }
        Ok(AtomicSwapState {
            come_token_id,
            rfqs: Table::new(),
            locked_balances: Table::new(),
            governance_read_address: None,
            allowed_asset_tokens: Table::new(),
            storage_version: 1,
        })
    }

    fn set_governance_read_address(&mut self, env: &BlockchainEnv, addr: Vec<u8>) -> (r: Result<(), &'static str>)
        ensures
            Self::owner_error(env) is Some ==> r == Err::<(), &'static str>("Endpoint can only be called by owner") && *final(self) == *old(self),
            Self::owner_error(env) is None && addr@ == zero_address() ==>
                r == Err::<(), &'static str>("governance_read_address must not be zero") && *final(self) == *old(self),
            Self::owner_error(env) is None && addr@ != zero_address() ==>
                r is Ok && *final(self) == (AtomicSwapState { governance_read_address: Some(addr), ..*old(self) }),
    {
        if !bytes_eq(&env.caller, &env.owner) {
            return Err("Endpoint can only be called by owner");
        }
        if is_zero_address(&addr) {
            return Err("governance_read_address must not be zero");
        }
        self.governance_read_address = Some(addr);
        Ok(())
    }

    fn clear_governance_read_address(&mut self, env: &BlockchainEnv) -> (r: Result<(), &'static str>)
        ensures
            Self::owner_error(env) is Some ==> r == Err::<(), &'static str>("Endpoint can only be called by owner") && *final(self) == *old(self),
            Self::owner_error(env) is None ==> r is Ok && *final(self) == (AtomicSwapState { governance_read_address: None, ..*old(self) }),
    {
        if !bytes_eq(&env.caller, &env.owner) {
            return Err("Endpoint can only be called by owner");
        }
        self.governance_read_address = None;
        Ok(())
    }

    /// Allows a valid ESDT other than COME as an asset token.
    fn allow_asset_token(&mut self, env: &BlockchainEnv, token_id: Vec<u8>) -> (r: Result<AtomicSwapEvent, &'static str>)
        ensures
            ({
                let e = if esdt_decode_error(token_id@) is Some {
                    esdt_decode_error(token_id@)
                } else if Self::owner_error(env) is Some {
                    Self::owner_error(env)
                } else if !esdt_identifier_valid(token_id@) {
                    Some("invalid token_id")
                } else if token_id@ == old(self).come_token_id@ {
                    Some("asset token must differ from COME")
                } else {
                    None
                };
                match e {
                    Some(m) => r == Err::<AtomicSwapEvent, &'static str>(m) && *final(self) == *old(self),
                    None => (r matches Ok(AtomicSwapEvent::AssetTokenAllowed { token_id: t }) && t@ == token_id@) && final(self).allowed_asset_tokens@ == old(self).allowed_asset_tokens@.insert(token_id@, ())
                        && *final(self) == (AtomicSwapState { allowed_asset_tokens: final(self).allowed_asset_tokens, ..*old(self) }),
                }
            }),
    {
        if let Err(e) = decode_esdt_token(&token_id) {
            return Err(e);
        }
        if !bytes_eq(&env.caller, &env.owner) {
            return Err("Endpoint can only be called by owner");
        }
        if !is_valid_esdt_identifier(&token_id) {
            return Err("invalid token_id");
        }
        if bytes_eq(&token_id, &self.come_token_id) {
            return Err("asset token must differ from COME");
        }
        let event = AtomicSwapEvent::AssetTokenAllowed { token_id: copy_bytes(&token_id) };
        self.allowed_asset_tokens.insert(token_id, ());
        Ok(event)
    }

    fn remove_asset_token(&mut self, env: &BlockchainEnv, token_id: Vec<u8>) -> (r: Result<AtomicSwapEvent, &'static str>)
        ensures
            ({
                let e = if esdt_decode_error(token_id@) is Some {
                    esdt_decode_error(token_id@)
                } else if Self::owner_error(env) is Some {
                    Self::owner_error(env)
                } else if !old(self).allowed_asset_tokens@.contains_key(token_id@) {
                    Some("asset token not allowed")
                } else {
                    None
                };
                match e {
                    Some(m) => r == Err::<AtomicSwapEvent, &'static str>(m) && *final(self) == *old(self),
                    None => (r matches Ok(AtomicSwapEvent::AssetTokenRemoved { token_id: t }) && t@ == token_id@) && final(self).allowed_asset_tokens@ == old(self).allowed_asset_tokens@.remove(token_id@)
                        && *final(self) == (AtomicSwapState { allowed_asset_tokens: final(self).allowed_asset_tokens, ..*old(self) }),
                }
            }),
    {
        if let Err(e) = decode_esdt_token(&token_id) {
            return Err(e);
        }
        if !bytes_eq(&env.caller, &env.owner) {
            return Err("Endpoint can only be called by owner");
        }
        if !self.allowed_asset_tokens.contains_key(&token_id) {
            return Err("asset token not allowed");
        }
        self.allowed_asset_tokens.remove(&token_id);
        Ok(AtomicSwapEvent::AssetTokenRemoved { token_id })
    }

    /// The owner opens an RFQ awaiting the buyer's margin.
    fn create_rfq(
        &mut self,
        env: &BlockchainEnv,
        probe: &PauseProbe,
        rfq_id: Vec<u8>,
        buyer: Vec<u8>,
        dealer: Vec<u8>,
        token_id: Vec<u8>,
        quantity: BigAmount,
        margin_amount: BigAmount,
        price_come_per_unit: BigAmount,
        expiry_epoch: u64,
    ) -> (r: Result<AtomicSwapEvent, &'static str>)
        ensures
            match old(self).create_rfq_error(env, *probe, rfq_id@, buyer@, dealer@, token_id@, quantity, margin_amount,
                price_come_per_unit, expiry_epoch) {
                Some(e) => r == Err::<AtomicSwapEvent, &'static str>(e) && *final(self) == *old(self),
                None => {
                    let rec = final(self).rfqs@[rfq_id@];
                    &&& r matches Ok(AtomicSwapEvent::RfqCreated { rfq_id: i }) && i@ == rfq_id@
                    &&& final(self).rfqs@ == old(self).rfqs@.insert(rfq_id@, rec)
                    &&& rec.rfq_id@ == rfq_id@
                    &&& rec.buyer == buyer
                    &&& rec.dealer == dealer
                    &&& rec.token_id == token_id
                    &&& rec.quantity == quantity
                    &&& rec.margin_amount == margin_amount
                    &&& rec.price_come_per_unit == price_come_per_unit
                    &&& rec.funded_epoch == 0
                    &&& rec.expiry_epoch == expiry_epoch
                    &&& rec.status == RFQ_PENDING_DEPOSIT
                    &&& *final(self) == (AtomicSwapState { rfqs: final(self).rfqs, ..*old(self) })
                },
            },
    {
        if let Err(e) = decode_esdt_token(&token_id) {
            return Err(e);
        }
        if let Err(e) = require_not_paused(&self.governance_read_address, probe) {
            return Err(e);
        }
        if !bytes_eq(&env.caller, &env.owner) {
            return Err("only owner can create RFQs");
        }
        if rfq_id.len() == 0 {
            return Err("empty rfq_id");
        }
        if is_zero_address(&buyer) {
            return Err("buyer must not be zero");
        }
        if is_zero_address(&dealer) {
            return Err("dealer must not be zero");
        }
        if bytes_eq(&buyer, &dealer) {
            return Err("buyer and dealer must be distinct");
        }
        if !is_valid_esdt_identifier(&token_id) {
            return Err("invalid token_id");
        }
        if !self.allowed_asset_tokens.contains_key(&token_id) {
            return Err("asset token not allowed");
        }
        if quantity.is_zero() {
            return Err("quantity must be positive");
        }
        if margin_amount.is_zero() {
            return Err("margin must be positive");
        }
        if price_come_per_unit.is_zero() {
            return Err("price must be positive");
        }
        if expiry_epoch <= env.block_epoch {
            return Err("expiry must be in the future");
        }
        if self.rfqs.contains_key(&rfq_id) {
            return Err("RFQ already exists");
        }
        let record = EscrowedRfqRecord {
            rfq_id: copy_bytes(&rfq_id),
            buyer,
            dealer,
            token_id,
            quantity,
            margin_amount,
            price_come_per_unit,
            funded_epoch: 0,
            expiry_epoch,
            status: RFQ_PENDING_DEPOSIT,
        };
        let event = AtomicSwapEvent::RfqCreated { rfq_id: copy_bytes(&rfq_id) };
        let ghost k = rfq_id@;
        let ghost rec = record;
        self.rfqs.insert(rfq_id, record);
        proof {
            lemma_escrow_step(old(self).rfqs@, old(self).locked_balances@, k, rec, self.locked_balances@);
        }
        Ok(event)
    }

    /// The buyer escrows exactly the margin in COME (`escrow_balance` is the
    /// contract's COME balance with the payment); the RFQ becomes deposited.
    fn deposit_margin(&mut self, env: &BlockchainEnv, probe: &PauseProbe, rfq_id: Vec<u8>, payment: &Payment, escrow_balance: BigAmount) -> (r: Result<AtomicSwapEvent, &'static str>)
        ensures
            match old(self).deposit_error(env, *probe, rfq_id@, *payment, escrow_balance) {
                Some(e) => r == Err::<AtomicSwapEvent, &'static str>(e) && *final(self) == *old(self),
                None => {
                    let rfq = old(self).rfqs@[rfq_id@];
                    &&& r matches Ok(AtomicSwapEvent::MarginDeposited { rfq_id: i, amount }) && i@ == rfq_id@ && amount@ == payment.amount@
                    &&& final(self).rfqs@ == old(self).rfqs@.insert(
                        rfq_id@,
                        EscrowedRfqRecord { status: RFQ_DEPOSITED, funded_epoch: env.block_epoch, ..rfq },
                    )
                    &&& final(self).locked_balances@ == old(self).locked_balances@.insert(
                        rfq.buyer@,
                        final(self).locked_balances@[rfq.buyer@],
                    )
                    &&& final(self).locked_balances@[rfq.buyer@]@ == old(self).locked(rfq.buyer@) + payment.amount@
                    &&& *final(self) == (AtomicSwapState {
                        rfqs: final(self).rfqs,
                        locked_balances: final(self).locked_balances,
                        ..*old(self)
                    })
                },
            },
    {
        if let Err(e) = require_not_paused(&self.governance_read_address, probe) {
            return Err(e);
        }
        let (status, buyer, margin) = match self.rfqs.get(&rfq_id) {
            None => {
                return Err("RFQ not found");
            },
            Some(rfq) => (rfq.status, copy_bytes(&rfq.buyer), rfq.margin_amount.copy()),
        };
        if status != RFQ_PENDING_DEPOSIT {
            return Err("NOT_AWAITING_DEPOSIT");
        }
        if !bytes_eq(&env.caller, &buyer) {
            return Err("only buyer can deposit margin");
        }
        if !bytes_eq(&payment.token_id, &self.come_token_id) {
            return Err("must deposit COME token");
        }
        if payment.token_nonce != 0 {
            return Err("FUNGIBLE_ONLY: token nonce must be 0");
        }
        if !payment.amount.same_as(&margin) {
            return Err("WRONG_MARGIN_AMOUNT");
        }
        let locked = self.locked_of(&buyer);
        let new_locked = locked.plus(&payment.amount);
        if let Err(e) = Self::require_locked_balance_backed(&new_locked, &escrow_balance) {
            return Err(e);
        }
        let event = AtomicSwapEvent::MarginDeposited { rfq_id: copy_bytes(&rfq_id), amount: payment.amount.copy() };
        let ghost k = rfq_id@;
        let ghost deposited = EscrowedRfqRecord { status: RFQ_DEPOSITED, funded_epoch: env.block_epoch, ..old(self).rfqs@[k] };
        let taken = self.rfqs.take(&rfq_id);
        match taken {
            Some(rfq) => {
                self.rfqs.insert(copy_bytes(&rfq_id), EscrowedRfqRecord { status: RFQ_DEPOSITED, funded_epoch: env.block_epoch, ..rfq });
            },
            None => {},
        }
        assert(self.rfqs@ =~= old(self).rfqs@.insert(k, deposited));
        self.locked_balances.insert(buyer, new_locked);
        proof {
            let prev = old(self).rfqs@[k];
            assert forall|b: Seq<u8>|
                #[trigger] balance_of(self.locked_balances@, b) == balance_of(old(self).locked_balances@, b) - (if old(
                    self,
                ).rfqs@.contains_key(k) {
                    escrowed_margin(old(self).rfqs@[k], b)
                } else {
                    0
                }) + escrowed_margin(deposited, b) by {
                if b == prev.buyer@ {
                } else {
                }
            }
            lemma_escrow_step(old(self).rfqs@, old(self).locked_balances@, k, deposited, self.locked_balances@);
        }
        Ok(event)
    }

    /// Before expiry the dealer delivers the asset tokens: the buyer
    /// receives them and the dealer the escrowed margin.
    fn settle(&mut self, env: &BlockchainEnv, probe: &PauseProbe, rfq_id: Vec<u8>, payment: &Payment, escrow_balance: BigAmount) -> (r: Result<(Vec<Transfer>, AtomicSwapEvent), &'static str>)
        ensures
            match old(self).settle_error(env, *probe, rfq_id@, *payment, escrow_balance) {
                Some(e) => r == Err::<(Vec<Transfer>, AtomicSwapEvent), &'static str>(e) && *final(self) == *old(self),
                None => {
                    let rfq = old(self).rfqs@[rfq_id@];
                    &&& r matches Ok((t, ev)) && t@.len() == 2
                        && t@[0].to@ == rfq.buyer@ && t@[0].token_id@ == rfq.token_id@ && t@[0].amount@ == rfq.quantity@
                        && t@[1].to@ == rfq.dealer@ && t@[1].token_id@ == old(self).come_token_id@ && t@[1].amount@ == rfq.margin_amount@
                        && (ev matches AtomicSwapEvent::RfqSettled { rfq_id: i, buyer: b, dealer: d } && i@ == rfq_id@
                        && b@ == rfq.buyer@ && d@ == rfq.dealer@)
                    &&& old(self).released(*final(self), rfq_id@, RFQ_COMPLETED)
                },
            },
    {
        if let Err(e) = require_not_paused(&self.governance_read_address, probe) {
            return Err(e);
        }
        let (status, expiry, dealer, token_id, quantity) = match self.rfqs.get(&rfq_id) {
            None => {
                return Err("RFQ not found");
            },
            Some(rfq) => (rfq.status, rfq.expiry_epoch, copy_bytes(&rfq.dealer), copy_bytes(&rfq.token_id), rfq.quantity.copy()),
        };
        if status != RFQ_DEPOSITED {
            return Err("NOT_DEPOSITED");
        }
        if env.block_epoch > expiry {
            return Err("EXPIRED");
        }
        if !bytes_eq(&env.caller, &dealer) {
            return Err("ONLY_DEALER");
        }
        if !bytes_eq(&payment.token_id, &token_id) {
            return Err("wrong RWA token");
        }
        if !payment.amount.same_as(&quantity) {
            return Err("wrong RWA quantity");
        }
        let (buyer, dealer, token_id, quantity, margin) = match self.release(&rfq_id, &escrow_balance, RFQ_COMPLETED) {
            Ok(x) => x,
            Err(e) => {
                return Err(e);
            },
        };
        let event = AtomicSwapEvent::RfqSettled { rfq_id: copy_bytes(&rfq_id), buyer: copy_bytes(&buyer), dealer: copy_bytes(&dealer) };
        let mut transfers: Vec<Transfer> = Vec::new();
        transfers.push(Transfer { to: buyer, token_id, amount: quantity });
        transfers.push(Transfer { to: dealer, token_id: copy_bytes(&self.come_token_id), amount: margin });
        Ok((transfers, event))
    }

    /// After expiry anyone may return a deposited margin to the buyer.
    fn auto_reclaim(&mut self, env: &BlockchainEnv, probe: &PauseProbe, rfq_id: Vec<u8>, escrow_balance: BigAmount) -> (r: Result<(Vec<Transfer>, AtomicSwapEvent), &'static str>)
        ensures
            match old(self).reclaim_error(env, *probe, rfq_id@, escrow_balance) {
                Some(e) => r == Err::<(Vec<Transfer>, AtomicSwapEvent), &'static str>(e) && *final(self) == *old(self),
                None => {
                    let rfq = old(self).rfqs@[rfq_id@];
                    &&& r matches Ok((t, ev)) && t@.len() == 1 && t@[0].to@ == rfq.buyer@ && t@[0].token_id@ == old(self).come_token_id@
                        && t@[0].amount@ == rfq.margin_amount@
                        && (ev matches AtomicSwapEvent::MarginReturned { rfq_id: i, amount, recipient } && i@ == rfq_id@
                        && amount@ == rfq.margin_amount@ && recipient@ == rfq.buyer@)
                    &&& old(self).released(*final(self), rfq_id@, RFQ_EXPIRED)
                },
            },
    {
        if let Err(e) = require_not_paused(&self.governance_read_address, probe) {
            return Err(e);
        }
        let (status, expiry) = match self.rfqs.get(&rfq_id) {
            None => {
                return Err("RFQ not found");
            },
            Some(rfq) => (rfq.status, rfq.expiry_epoch),
        };
        if status != RFQ_DEPOSITED {
            return Err("NOT_DEPOSITED");
        }
        if env.block_epoch <= expiry {
            return Err("NOT_EXPIRED");
        }
        let (buyer, _dealer, _token_id, _quantity, margin) = match self.release(&rfq_id, &escrow_balance, RFQ_EXPIRED) {
            Ok(x) => x,
            Err(e) => {
                return Err(e);
            },
        };
        let event = AtomicSwapEvent::MarginReturned { rfq_id: copy_bytes(&rfq_id), amount: margin.copy(), recipient: copy_bytes(&buyer) };
        let mut transfers: Vec<Transfer> = Vec::new();
        transfers.push(Transfer { to: buyer, token_id: copy_bytes(&self.come_token_id), amount: margin });
        Ok((transfers, event))
    }

    /// The buyer cancels a deposited RFQ and gets the margin back.
    fn cancel_rfq(&mut self, env: &BlockchainEnv, probe: &PauseProbe, rfq_id: Vec<u8>, escrow_balance: BigAmount) -> (r: Result<(Vec<Transfer>, AtomicSwapEvent), &'static str>)
        ensures
            match old(self).cancel_error(env, *probe, rfq_id@, escrow_balance) {
                Some(e) => r == Err::<(Vec<Transfer>, AtomicSwapEvent), &'static str>(e) && *final(self) == *old(self),
                None => {
                    let rfq = old(self).rfqs@[rfq_id@];
                    &&& r matches Ok((t, ev)) && t@.len() == 1 && t@[0].to@ == rfq.buyer@ && t@[0].token_id@ == old(self).come_token_id@
                        && t@[0].amount@ == rfq.margin_amount@
                        && (ev matches AtomicSwapEvent::MarginReturned { rfq_id: i, amount, recipient } && i@ == rfq_id@
                        && amount@ == rfq.margin_amount@ && recipient@ == rfq.buyer@)
                    &&& old(self).released(*final(self), rfq_id@, RFQ_CANCELLED)
                },
            },
    {
        if let Err(e) = require_not_paused(&self.governance_read_address, probe) {
            return Err(e);
        }
        let (status, buyer) = match self.rfqs.get(&rfq_id) {
            None => {
                return Err("RFQ not found");
            },
            Some(rfq) => (rfq.status, copy_bytes(&rfq.buyer)),
        };
        if status != RFQ_DEPOSITED {
            return Err("NOT_DEPOSITED");
        }
        if !bytes_eq(&env.caller, &buyer) {
            return Err("only buyer can cancel");
        }
        let (buyer, _dealer, _token_id, _quantity, margin) = match self.release(&rfq_id, &escrow_balance, RFQ_CANCELLED) {
            Ok(x) => x,
            Err(e) => {
                return Err(e);
            },
        };
        let event = AtomicSwapEvent::MarginReturned { rfq_id: copy_bytes(&rfq_id), amount: margin.copy(), recipient: copy_bytes(&buyer) };
        let mut transfers: Vec<Transfer> = Vec::new();
        transfers.push(Transfer { to: buyer, token_id: copy_bytes(&self.come_token_id), amount: margin });
        Ok((transfers, event))
    }

    fn upgrade(&mut self) -> (r: Result<(), &'static str>)
        ensures
            match storage_version_upgrade_spec(old(self).storage_version, 1, 1) {
                Ok(v) => r is Ok && *final(self) == (AtomicSwapState { storage_version: v, ..*old(self) }),
                Err(e) => r == Err::<(), &'static str>(e) && *final(self) == *old(self),
            },
    {
        upgrade_storage_version(&mut self.storage_version, 1, 1)
    }
}

impl AtomicSwapState {
    pub fn get_rfq(&self, rfq_id: &[u8]) -> (r: Option<&EscrowedRfqRecord>)
        requires
            self.wf(),
        ensures
            match r {
                Some(x) => self.rfqs@.contains_key(rfq_id@) && *x == self.rfqs@[rfq_id@],
                None => !self.rfqs@.contains_key(rfq_id@),
            },
    {
        self.rfqs.get(rfq_id)
    }

    pub fn get_locked_balance(&self, holder: &[u8]) -> (r: BigAmount)
        requires
            self.wf(),
        ensures
            r@ == self.locked(holder@),
    {
        self.locked_of(holder)
    }

    pub fn is_asset_token_allowed(&self, token_id: &[u8]) -> (r: bool)
        requires
            self.wf(),
        ensures
            r == self.allowed_asset_tokens@.contains_key(token_id@),
    {
        self.allowed_asset_tokens.contains_key(token_id)
    }

    pub fn get_storage_version(&self) -> (r: u32)
        ensures
            r == self.storage_version,
    {
        self.storage_version
    }
}

/// Settled, expired and cancelled RFQs are final: no deposit, settlement,
/// reclaim or cancellation applies to them.
pub proof fn lemma_closed_rfq_is_final(
    s: AtomicSwapState,
    env: BlockchainEnv,
    probe: PauseProbe,
    rfq_id: Seq<u8>,
    payment: Payment,
    escrow_balance: BigAmount,
)
    requires
        s.rfqs@.contains_key(rfq_id),
        s.rfqs@[rfq_id].status == RFQ_COMPLETED || s.rfqs@[rfq_id].status == RFQ_EXPIRED || s.rfqs@[rfq_id].status
            == RFQ_CANCELLED,
    ensures
        s.deposit_error(&env, probe, rfq_id, payment, escrow_balance) is Some,
        s.settle_error(&env, probe, rfq_id, payment, escrow_balance) is Some,
        s.reclaim_error(&env, probe, rfq_id, escrow_balance) is Some,
        s.cancel_error(&env, probe, rfq_id, escrow_balance) is Some,
{
}

/// A margin leaves escrow exactly once, in full: a released RFQ lowers the
/// buyer's escrow by its margin and no longer counts as deposited.
pub proof fn lemma_release_moves_the_margin(s: AtomicSwapState, after: AtomicSwapState, rfq_id: Seq<u8>, status: u8)
    requires
        s.released(after, rfq_id, status),
        s.rfqs@.contains_key(rfq_id),
        s.locked(s.rfqs@[rfq_id].buyer@) >= s.rfqs@[rfq_id].margin_amount@,
        status != RFQ_DEPOSITED,
    ensures
        after.locked(s.rfqs@[rfq_id].buyer@) + s.rfqs@[rfq_id].margin_amount@ == s.locked(s.rfqs@[rfq_id].buyer@),
        after.rfqs@[rfq_id].status != RFQ_DEPOSITED,
{
}

/// Escrow accounting: every deposited RFQ's margin is covered by its
/// buyer's locked balance, so releasing it never underflows.
pub proof fn lemma_deposited_margin_is_locked(s: AtomicSwapState, rfq_id: Seq<u8>)
    requires
        s.wf(),
        s.rfqs@.contains_key(rfq_id),
        s.rfqs@[rfq_id].status == RFQ_DEPOSITED,
    ensures
        s.locked(s.rfqs@[rfq_id].buyer@) >= s.rfqs@[rfq_id].margin_amount@,
{
    let b = s.rfqs@[rfq_id].buyer@;
    assert(balance_of(s.locked_balances@, b) == escrow_sum(s.rfqs@, b));
    lemma_value_sum_covers(s.rfqs@, s.rfqs@.dom(), rfq_id, escrow_weight(b));
}

} // verus!
