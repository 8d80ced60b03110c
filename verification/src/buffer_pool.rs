//! Non-permanence buffer pool: per-project buffer deposits, cancellations
//! and rate-limited replenishments.
use vstd::prelude::*;

use crate::amount::BigAmount;
use crate::bytes::{bytes_eq, copy_bytes, is_zero_address, zero_address};
use crate::env::BlockchainEnv;
use crate::mrv_common::{slot_matches, slot_or_zero, MrvGovernanceModule, MrvGovernanceState};
use crate::ledger::{lemma_value_sum_covers, lemma_value_sum_insert, value_sum};
use crate::table::Table;

verus! {

/// Replenishment threshold (in basis points of the live buffer) above which
/// governance approval is required.
pub const REPLENISHMENT_GOVERNANCE_THRESHOLD_BPS: u64 = 1_000;
/// Minimum epoch interval between replenishments for the same project.
pub const REPLENISHMENT_COOLDOWN_EPOCHS: u64 = 1_500;

/// Per-project buffer balance tracking deposits, cancellations, and replenishments.
pub struct BufferRecord {
    pub project_id: Vec<u8>,
    pub total_deposited: BigAmount,
    pub total_cancelled: BigAmount,
    pub total_replenished: BigAmount,
    pub last_replenishment_epoch: u64,
}

/// The storage of the buffer pool.
pub struct BufferPoolState {
    pub gov: MrvGovernanceState,
    pub carbon_credit_addr: Option<Vec<u8>>,
    /// Keyed by project id.
    pub buffer_records: Table<BufferRecord>,
    pub total_pool_balance: BigAmount,
    /// Whitelisted callers (keys only).
    pub authorized_callers: Table<()>,
    pub storage_version: u32,
}

/// The live buffer of a record: deposits not yet cancelled.
pub open spec fn net_live(r: BufferRecord) -> nat {
    if r.total_deposited@ >= r.total_cancelled@ { (r.total_deposited@ - r.total_cancelled@) as nat } else { 0 }
}

/// The largest replenishment that does not need governance: 10% of the
/// live buffer, rounded down.
pub open spec fn replenishment_threshold(net: nat) -> nat {
    net * (REPLENISHMENT_GOVERNANCE_THRESHOLD_BPS as nat) / 10_000
}

/// What a project holds in the pool: its deposits, less what was
/// The events of the buffer pool.
#[derive(Debug, PartialEq, Eq)]
pub enum BufferPoolEvent {
    /// `bufferDeposited`.
    Deposited { project_id: Vec<u8>, amount: BigAmount },
    /// `bufferCancelled`.
    Cancelled { project_id: Vec<u8>, reason_cid: Vec<u8>, amount: BigAmount },
    /// `bufferReplenished`.
    Replenished { project_id: Vec<u8>, amount: BigAmount },
    /// `bufferReplenishmentGovernanceRequired`: a replenishment above the
    /// threshold, approved by governance.
    ReplenishmentGovernanceRequired { project_id: Vec<u8>, amount: BigAmount },
    /// `authorizedCallerAdded`.
    AuthorizedCallerAdded { caller: Vec<u8> },
    /// `authorizedCallerRemoved`.
    AuthorizedCallerRemoved { caller: Vec<u8> },
}

/// The events of a replenishment of `amount` for `project_id`: the
/// governance notice when the amount is over the threshold, then the
/// replenishment itself.
pub open spec fn replenish_events(evs: Seq<BufferPoolEvent>, project_id: Seq<u8>, amount: BigAmount, over_threshold: bool) -> bool {
    &&& evs.len() == (if over_threshold { 2nat } else { 1nat })
    &&& over_threshold ==> (evs[0] matches BufferPoolEvent::ReplenishmentGovernanceRequired { project_id: p, amount: a }
        && p@ == project_id && a@ == amount@)
    &&& evs.last() matches BufferPoolEvent::Replenished { project_id: p, amount: a } && p@ == project_id && a == amount
}

/// cancelled, plus its replenishments.
pub open spec fn pool_share(r: BufferRecord) -> int {
    r.total_deposited@ - r.total_cancelled@ + r.total_replenished@
}

/// Each project's share of the pool, as a weight to sum.
pub open spec fn pool_weight() -> spec_fn(BufferRecord) -> int {
    |r: BufferRecord| pool_share(r)
}

/// The shares of all projects.
pub open spec fn pool_total(records: Map<Seq<u8>, BufferRecord>) -> int {
    value_sum(records, records.dom(), pool_weight())
}

impl BufferPoolState {
    /// Tables are well formed, no project has cancelled more than it
    /// deposited, and the pool balance is the sum of the projects' shares.
    pub open spec fn wf(&self) -> bool {
        &&& self.buffer_records.wf()
        &&& self.authorized_callers.wf()
        &&& forall|p: Seq<u8>| #[trigger] self.buffer_records@.contains_key(p)
            ==> self.buffer_records@[p].total_cancelled@ <= self.buffer_records@[p].total_deposited@
        &&& self.total_pool_balance@ == pool_total(self.buffer_records@)
    }

    /// The caller may deposit or replenish: governance, owner, the carbon
    /// credit contract, or a whitelisted address.
    pub open spec fn caller_may_deposit(&self, env: &BlockchainEnv) -> bool {
        ||| (self.gov.governance is Some && env.caller@ == self.gov.governance->0@)
        ||| env.caller@ == env.owner@
        ||| (self.carbon_credit_addr is Some && env.caller@ == self.carbon_credit_addr->0@)
        ||| self.authorized_callers@.contains_key(env.caller@)
    }

    /// What a project has deposited so far (0 before its first deposit).
    pub open spec fn deposited_of(&self, project_id: Seq<u8>) -> nat {
        if self.buffer_records@.contains_key(project_id) { self.buffer_records@[project_id].total_deposited@ } else { 0 }
    }

    pub open spec fn deposit_error(&self, env: &BlockchainEnv, project_id: Seq<u8>, amount: BigAmount, period: u64) -> Option<&'static str> {
        if !self.caller_may_deposit(env) {
            Some("caller not authorized")
        } else if project_id.len() == 0 {
            Some("empty project_id")
        } else if amount@ == 0 {
            Some("amount must be positive")
        } else if period == 0 {
            Some("invalid monitoring_period_n")
        } else {
            None
        }
    }

    pub open spec fn cancel_error(&self, env: &BlockchainEnv, project_id: Seq<u8>, amount: BigAmount, reason_cid: Seq<u8>) -> Option<&'static str> {
        if self.gov.governance_or_owner_error(env.caller@, env.owner@) is Some {
            self.gov.governance_or_owner_error(env.caller@, env.owner@)
        } else if project_id.len() == 0 {
            Some("empty project_id")
        } else if amount@ == 0 {
            Some("amount must be positive")
        } else if reason_cid.len() == 0 {
            Some("empty reason_cid")
        } else if !self.buffer_records@.contains_key(project_id) {
            Some("no buffer record for project")
        } else if amount@ > self.buffer_records@[project_id].total_deposited@ - self.buffer_records@[project_id].total_cancelled@ {
            Some("CANCELLATION_EXCEEDS_AVAILABLE: cannot cancel more than deposited minus already cancelled")
        } else if self.total_pool_balance@ < amount@ {
            Some("POOL_BALANCE_UNDERFLOW: accounting error")
        } else {
            None
        }
    }

    pub open spec fn replenish_error(&self, env: &BlockchainEnv, project_id: Seq<u8>, amount: BigAmount, justification_cid: Seq<u8>) -> Option<&'static str> {
        let rec = self.buffer_records@[project_id];
        let is_gov = env.caller@ == slot_or_zero(self.gov.governance);
        if !self.caller_may_deposit(env) {
            Some("caller not authorized")
        } else if project_id.len() == 0 {
            Some("empty project_id")
        } else if amount@ == 0 {
            Some("amount must be positive")
        } else if justification_cid.len() == 0 {
            Some("empty justification_cid")
        } else if !self.buffer_records@.contains_key(project_id) {
            Some("no buffer record for project")
        } else if net_live(rec) == 0 && !is_gov {
            Some("buffer fully depleted — governance approval required for any replenishment")
        } else if amount@ > replenishment_threshold(net_live(rec)) && !is_gov {
            Some("replenishment exceeds 10% threshold — governance approval required")
        } else if rec.total_replenished@ > 0 && env.block_epoch < rec.last_replenishment_epoch + REPLENISHMENT_COOLDOWN_EPOCHS {
            Some("replenishment rate limit: 1 per 90 days per project")
        } else {
            None
        }
    }

    fn require_authorized_caller(&self, env: &BlockchainEnv) -> (r: Result<(), &'static str>)
        requires
            self.wf(),
        ensures
            self.caller_may_deposit(env) ==> r is Ok,
            !self.caller_may_deposit(env) ==> r == Err::<(), &'static str>("caller not authorized"),
    {
        let is_governance = match &self.gov.governance {
            Some(g) => bytes_eq(&env.caller, g),
            None => false,
        };
        let is_owner = bytes_eq(&env.caller, &env.owner);
        let is_carbon_credit = match &self.carbon_credit_addr {
            Some(a) => bytes_eq(&env.caller, a),
            None => false,
        };
        let is_whitelisted = self.authorized_callers.contains_key(&env.caller);
        if is_governance || is_owner || is_carbon_credit || is_whitelisted {
            Ok(())
        } else {
            Err("caller not authorized")
        }
    }
}

/// The endpoints of the buffer pool.
pub trait BufferPool: Sized {
    spec fn valid(&self) -> bool;

    fn init(env: &BlockchainEnv, governance: Vec<u8>, carbon_credit_addr: Vec<u8>) -> (r: Result<Self, &'static str>)
        ensures
            r matches Ok(s) ==> s.valid();

    fn set_carbon_credit_addr(&mut self, env: &BlockchainEnv, addr: Vec<u8>) -> (r: Result<(), &'static str>)
        requires
            old(self).valid(),
        ensures
            final(self).valid();

    fn deposit_buffer_credits(&mut self, env: &BlockchainEnv, project_id: Vec<u8>, amount_scaled: BigAmount, monitoring_period_n: u64) -> (r: Result<BufferPoolEvent, &'static str>)
        requires
            old(self).valid(),
        ensures
            final(self).valid();

    fn cancel_buffer_credits(&mut self, env: &BlockchainEnv, project_id: Vec<u8>, reversal_amount_scaled: BigAmount, reason_cid: Vec<u8>) -> (r: Result<BufferPoolEvent, &'static str>)
        requires
            old(self).valid(),
        ensures
            final(self).valid();

    fn replenish_buffer_credits(&mut self, env: &BlockchainEnv, project_id: Vec<u8>, amount_scaled: BigAmount, justification_cid: Vec<u8>) -> (r: Result<Vec<BufferPoolEvent>, &'static str>)
        requires
            old(self).valid(),
        ensures
            final(self).valid();

    fn get_buffer_record(&self, project_id: &[u8]) -> Option<&BufferRecord>
        requires
            self.valid();

    fn get_total_pool_balance(&self) -> BigAmount;

    fn add_authorized_caller(&mut self, env: &BlockchainEnv, caller: Vec<u8>) -> (r: Result<BufferPoolEvent, &'static str>)
        requires
            old(self).valid(),
        ensures
            final(self).valid();

    fn remove_authorized_caller(&mut self, env: &BlockchainEnv, caller: Vec<u8>) -> (r: Result<BufferPoolEvent, &'static str>)
        requires
            old(self).valid(),
        ensures
            final(self).valid();

    fn is_authorized_caller(&self, caller: &[u8]) -> bool
        requires
            self.valid();

    fn upgrade(&mut self)
        requires
            old(self).valid(),
        ensures
            final(self).valid();
}

impl BufferPool for BufferPoolState {
    open spec fn valid(&self) -> bool {
        self.wf()
    }

    fn init(env: &BlockchainEnv, governance: Vec<u8>, carbon_credit_addr: Vec<u8>) -> (r: Result<Self, &'static str>)
        ensures
            governance@ == zero_address() ==> r == Err::<Self, &'static str>("governance must not be zero"),
            governance@ != zero_address() && carbon_credit_addr@ == zero_address()
                ==> r == Err::<Self, &'static str>("carbon_credit_addr must not be zero"),
            governance@ != zero_address() && carbon_credit_addr@ != zero_address() ==> (r matches Ok(s) && {
                &&& s.wf()
                &&& s.gov.governance == Some(governance)
                &&& s.carbon_credit_addr == Some(carbon_credit_addr)
                &&& s.buffer_records@ == Map::<Seq<u8>, BufferRecord>::empty()
                &&& s.authorized_callers@ == Map::<Seq<u8>, ()>::empty()
                &&& s.total_pool_balance@ == 0
                &&& s.storage_version == 1
            }),
    {
        if is_zero_address(&governance) {
            return Err("governance must not be zero");
        }
        if is_zero_address(&carbon_credit_addr) {
            return Err("carbon_credit_addr must not be zero");
        }
        Ok(BufferPoolState {
            gov: MrvGovernanceState::with_governance(governance),
            carbon_credit_addr: Some(carbon_credit_addr),
            buffer_records: Table::new(),
            total_pool_balance: BigAmount::zero(),
            authorized_callers: Table::new(),
            storage_version: 1,
        })
    }

    /// Updates the authorized carbon-credit contract address.
    fn set_carbon_credit_addr(&mut self, env: &BlockchainEnv, addr: Vec<u8>) -> (r: Result<(), &'static str>)
        ensures
            old(self).gov.governance_or_owner_error(env.caller@, env.owner@) is Some ==>
                r == Err::<(), &'static str>("caller not authorized") && *final(self) == *old(self),
            old(self).gov.governance_or_owner_error(env.caller@, env.owner@) is None && addr@ == zero_address() ==>
                r == Err::<(), &'static str>("carbon_credit_addr must not be zero") && *final(self) == *old(self),
            old(self).gov.governance_or_owner_error(env.caller@, env.owner@) is None && addr@ != zero_address() ==>
                r is Ok && *final(self) == (BufferPoolState { carbon_credit_addr: Some(addr), ..*old(self) }),
    {
        if let Err(e) = self.gov.require_governance_or_owner(env) {
            return Err(e);
        }
        if is_zero_address(&addr) {
            return Err("carbon_credit_addr must not be zero");
        }
        self.carbon_credit_addr = Some(addr);
        Ok(())
    }

    /// Records a buffer contribution for a project and monitoring period.
    fn deposit_buffer_credits(&mut self, env: &BlockchainEnv, project_id: Vec<u8>, amount_scaled: BigAmount, monitoring_period_n: u64) -> (r: Result<BufferPoolEvent, &'static str>)
        ensures
            match old(self).deposit_error(env, project_id@, amount_scaled, monitoring_period_n) {
                Some(e) => r == Err::<BufferPoolEvent, &'static str>(e) && *final(self) == *old(self),
                None => {
                    let rec = final(self).buffer_records@[project_id@];
                    &&& r == Ok::<BufferPoolEvent, &'static str>(BufferPoolEvent::Deposited { project_id, amount: amount_scaled })
                    &&& final(self).buffer_records@ == old(self).buffer_records@.insert(project_id@, rec)
                    &&& rec.total_deposited@ == old(self).deposited_of(project_id@) + amount_scaled@
                    &&& if old(self).buffer_records@.contains_key(project_id@) {
                        rec == BufferRecord { total_deposited: rec.total_deposited, ..old(self).buffer_records@[project_id@] }
                    } else {
                        rec.project_id@ == project_id@ && rec.total_cancelled@ == 0 && rec.total_replenished@ == 0
                            && rec.last_replenishment_epoch == 0
                    }
                    &&& final(self).total_pool_balance@ == old(self).total_pool_balance@ + amount_scaled@
                    &&& final(self).gov == old(self).gov
                    &&& final(self).carbon_credit_addr == old(self).carbon_credit_addr
                    &&& final(self).authorized_callers == old(self).authorized_callers
                    &&& final(self).storage_version == old(self).storage_version
                },
            },
    {
        if let Err(e) = self.require_authorized_caller(env) {
            return Err(e);
        }
        if project_id.len() == 0 {
            return Err("empty project_id");
        }
        if amount_scaled.is_zero() {
            return Err("amount must be positive");
        }
        if monitoring_period_n == 0 {
            return Err("invalid monitoring_period_n");
        }
        let key = copy_bytes(&project_id);
        let ghost pid = project_id@;
        let rec = match self.buffer_records.take(&key) {
            Some(rec) => rec,
            None => BufferRecord {
                project_id: copy_bytes(&project_id),
                total_deposited: BigAmount::zero(),
                total_cancelled: BigAmount::zero(),
                total_replenished: BigAmount::zero(),
                last_replenishment_epoch: 0,
            },
        };
        let updated = BufferRecord { total_deposited: rec.total_deposited.plus(&amount_scaled), ..rec };
        let ghost u = updated;
        self.buffer_records.insert(key, updated);
        self.total_pool_balance = self.total_pool_balance.plus(&amount_scaled);
        proof {
            assert(self.buffer_records@ =~= old(self).buffer_records@.insert(pid, u));
            old(self).buffer_records.lemma_finite();
            lemma_value_sum_insert(old(self).buffer_records@, pid, u, pool_weight());
        }
        Ok(BufferPoolEvent::Deposited { project_id, amount: amount_scaled })
    }

    /// Cancels previously deposited buffer credits for a project (accounting only).
    fn cancel_buffer_credits(&mut self, env: &BlockchainEnv, project_id: Vec<u8>, reversal_amount_scaled: BigAmount, reason_cid: Vec<u8>) -> (r: Result<BufferPoolEvent, &'static str>)
        ensures
            match old(self).cancel_error(env, project_id@, reversal_amount_scaled, reason_cid@) {
                Some(e) => r == Err::<BufferPoolEvent, &'static str>(e) && *final(self) == *old(self),
                None => {
                    let prev = old(self).buffer_records@[project_id@];
                    let rec = final(self).buffer_records@[project_id@];
                    &&& r == Ok::<BufferPoolEvent, &'static str>(
                        BufferPoolEvent::Cancelled { project_id, reason_cid, amount: reversal_amount_scaled },
                    )
                    &&& final(self).buffer_records@ == old(self).buffer_records@.insert(project_id@, rec)
                    &&& rec == BufferRecord { total_cancelled: rec.total_cancelled, ..prev }
                    &&& rec.total_cancelled@ == prev.total_cancelled@ + reversal_amount_scaled@
                    &&& final(self).total_pool_balance@ == old(self).total_pool_balance@ - reversal_amount_scaled@
                    &&& final(self).gov == old(self).gov
                    &&& final(self).carbon_credit_addr == old(self).carbon_credit_addr
                    &&& final(self).authorized_callers == old(self).authorized_callers
                    &&& final(self).storage_version == old(self).storage_version
                },
            },
    {
        if let Err(e) = self.gov.require_governance_or_owner(env) {
            return Err(e);
        }
        if project_id.len() == 0 {
            return Err("empty project_id");
        }
        if reversal_amount_scaled.is_zero() {
            return Err("amount must be positive");
        }
        if reason_cid.len() == 0 {
            return Err("empty reason_cid");
        }
        let available = match self.buffer_records.get(&project_id) {
            None => {
                return Err("no buffer record for project");
            },
            Some(rec) => rec.total_deposited.minus(&rec.total_cancelled),
        };
        if !reversal_amount_scaled.at_most(&available) {
            return Err("CANCELLATION_EXCEEDS_AVAILABLE: cannot cancel more than deposited minus already cancelled");
        }
        if !reversal_amount_scaled.at_most(&self.total_pool_balance) {
            return Err("POOL_BALANCE_UNDERFLOW: accounting error");
        }
        let ghost pid = project_id@;
        let rec = self.buffer_records.take(&project_id).unwrap();
        let updated = BufferRecord { total_cancelled: rec.total_cancelled.plus(&reversal_amount_scaled), ..rec };
        let ghost u = updated;
        self.buffer_records.insert(copy_bytes(&project_id), updated);
        self.total_pool_balance = self.total_pool_balance.minus(&reversal_amount_scaled);
        proof {
            assert(self.buffer_records@ =~= old(self).buffer_records@.insert(pid, u));
            old(self).buffer_records.lemma_finite();
            lemma_value_sum_insert(old(self).buffer_records@, pid, u, pool_weight());
        }
        Ok(BufferPoolEvent::Cancelled { project_id, reason_cid, amount: reversal_amount_scaled })
    }

    /// Replenishes a project's buffer: amounts above 10% of the live buffer,
    /// or any amount on a fully depleted buffer, need governance; at most one
    /// replenishment per cooldown window.
    fn replenish_buffer_credits(&mut self, env: &BlockchainEnv, project_id: Vec<u8>, amount_scaled: BigAmount, justification_cid: Vec<u8>) -> (r: Result<Vec<BufferPoolEvent>, &'static str>)
        ensures
            match old(self).replenish_error(env, project_id@, amount_scaled, justification_cid@) {
                Some(e) => r == Err::<Vec<BufferPoolEvent>, &'static str>(e) && *final(self) == *old(self),
                None => {
                    let prev = old(self).buffer_records@[project_id@];
                    let rec = final(self).buffer_records@[project_id@];
                    &&& r matches Ok(evs) && replenish_events(evs@, project_id@, amount_scaled,
                        amount_scaled@ > replenishment_threshold(net_live(prev)))
                    &&& final(self).buffer_records@ == old(self).buffer_records@.insert(project_id@, rec)
                    &&& rec == BufferRecord {
                        total_replenished: rec.total_replenished,
                        last_replenishment_epoch: env.block_epoch,
                        ..prev
                    }
                    &&& rec.total_replenished@ == prev.total_replenished@ + amount_scaled@
                    &&& final(self).total_pool_balance@ == old(self).total_pool_balance@ + amount_scaled@
                    &&& final(self).gov == old(self).gov
                    &&& final(self).carbon_credit_addr == old(self).carbon_credit_addr
                    &&& final(self).authorized_callers == old(self).authorized_callers
                    &&& final(self).storage_version == old(self).storage_version
                },
            },
    {
        if let Err(e) = self.require_authorized_caller(env) {
            return Err(e);
        }
        if project_id.len() == 0 {
            return Err("empty project_id");
        }
        if amount_scaled.is_zero() {
            return Err("amount must be positive");
        }
        if justification_cid.len() == 0 {
            return Err("empty justification_cid");
        }
        let (net, replenished_any, last_epoch) = match self.buffer_records.get(&project_id) {
            None => {
                return Err("no buffer record for project");
            },
            Some(rec) => {
                let net = if rec.total_cancelled.at_most(&rec.total_deposited) {
                    rec.total_deposited.minus(&rec.total_cancelled)
                } else {
                    BigAmount::zero()
                };
                (net, !rec.total_replenished.is_zero(), rec.last_replenishment_epoch)
            },
        };
        let is_gov = slot_matches(&self.gov.governance, &env.caller);
        if net.is_zero() && !is_gov {
            return Err("buffer fully depleted — governance approval required for any replenishment");
        }
        let threshold = net.times(REPLENISHMENT_GOVERNANCE_THRESHOLD_BPS).divided_by(10_000);
        let over_threshold = !amount_scaled.at_most(&threshold);
        if over_threshold && !is_gov {
            return Err("replenishment exceeds 10% threshold — governance approval required");
        }
        if replenished_any && (env.block_epoch as u128) < (last_epoch as u128) + (REPLENISHMENT_COOLDOWN_EPOCHS as u128) {
            return Err("replenishment rate limit: 1 per 90 days per project");
        }
        let mut events: Vec<BufferPoolEvent> = Vec::new();
        if over_threshold {
            events.push(BufferPoolEvent::ReplenishmentGovernanceRequired { project_id: copy_bytes(&project_id), amount: amount_scaled.copy() });
        }
        let ghost pid = project_id@;
        let rec = self.buffer_records.take(&project_id).unwrap();
        let updated = BufferRecord {
            total_replenished: rec.total_replenished.plus(&amount_scaled),
            last_replenishment_epoch: env.block_epoch,
            ..rec
        };
        let ghost u = updated;
        self.buffer_records.insert(copy_bytes(&project_id), updated);
        self.total_pool_balance = self.total_pool_balance.plus(&amount_scaled);
        proof {
            assert(self.buffer_records@ =~= old(self).buffer_records@.insert(pid, u));
            old(self).buffer_records.lemma_finite();
            lemma_value_sum_insert(old(self).buffer_records@, pid, u, pool_weight());
        }
        events.push(BufferPoolEvent::Replenished { project_id, amount: amount_scaled });
        Ok(events)
    }

    fn get_buffer_record(&self, project_id: &[u8]) -> (r: Option<&BufferRecord>)
        ensures
            match r {
                Some(rec) => self.buffer_records@.contains_key(project_id@) && *rec == self.buffer_records@[project_id@],
                None => !self.buffer_records@.contains_key(project_id@),
            },
    {
        self.buffer_records.get(project_id)
    }

    fn get_total_pool_balance(&self) -> (r: BigAmount)
        ensures
            r@ == self.total_pool_balance@,
    {
        self.total_pool_balance.copy()
    }

    /// Adds an address to the authorized caller whitelist.
    fn add_authorized_caller(&mut self, env: &BlockchainEnv, caller: Vec<u8>) -> (r: Result<BufferPoolEvent, &'static str>)
        ensures
            old(self).gov.governance_or_owner_error(env.caller@, env.owner@) is Some ==>
                r == Err::<BufferPoolEvent, &'static str>("caller not authorized") && *final(self) == *old(self),
            old(self).gov.governance_or_owner_error(env.caller@, env.owner@) is None && caller@ == zero_address() ==>
                r == Err::<BufferPoolEvent, &'static str>("caller must not be zero") && *final(self) == *old(self),
            old(self).gov.governance_or_owner_error(env.caller@, env.owner@) is None && caller@ != zero_address() ==> {
                &&& r matches Ok(BufferPoolEvent::AuthorizedCallerAdded { caller: c }) && c@ == caller@
                &&& final(self).authorized_callers@ == old(self).authorized_callers@.insert(caller@, ())
                &&& final(self).buffer_records == old(self).buffer_records
                &&& final(self).total_pool_balance == old(self).total_pool_balance
                &&& final(self).gov == old(self).gov
                &&& final(self).carbon_credit_addr == old(self).carbon_credit_addr
            },
    {
        if let Err(e) = self.gov.require_governance_or_owner(env) {
            return Err(e);
        }
        if is_zero_address(&caller) {
            return Err("caller must not be zero");
        }
        let event = BufferPoolEvent::AuthorizedCallerAdded { caller: copy_bytes(&caller) };
        self.authorized_callers.insert(caller, ());
        Ok(event)
    }

    /// Removes an address from the authorized caller whitelist.
    fn remove_authorized_caller(&mut self, env: &BlockchainEnv, caller: Vec<u8>) -> (r: Result<BufferPoolEvent, &'static str>)
        ensures
            old(self).gov.governance_or_owner_error(env.caller@, env.owner@) is Some ==>
                r == Err::<BufferPoolEvent, &'static str>("caller not authorized") && *final(self) == *old(self),
            old(self).gov.governance_or_owner_error(env.caller@, env.owner@) is None
                && !old(self).authorized_callers@.contains_key(caller@) ==>
                r == Err::<BufferPoolEvent, &'static str>("caller not in whitelist") && *final(self) == *old(self),
            old(self).gov.governance_or_owner_error(env.caller@, env.owner@) is None
                && old(self).authorized_callers@.contains_key(caller@) ==> {
                &&& r matches Ok(BufferPoolEvent::AuthorizedCallerRemoved { caller: c }) && c@ == caller@
                &&& final(self).authorized_callers@ == old(self).authorized_callers@.remove(caller@)
                &&& final(self).buffer_records == old(self).buffer_records
                &&& final(self).total_pool_balance == old(self).total_pool_balance
                &&& final(self).gov == old(self).gov
                &&& final(self).carbon_credit_addr == old(self).carbon_credit_addr
            },
    {
        if let Err(e) = self.gov.require_governance_or_owner(env) {
            return Err(e);
        }
        if !self.authorized_callers.contains_key(&caller) {
            return Err("caller not in whitelist");
        }
        self.authorized_callers.remove(&caller);
        Ok(BufferPoolEvent::AuthorizedCallerRemoved { caller })
    }

    fn is_authorized_caller(&self, caller: &[u8]) -> (r: bool)
        ensures
            r == self.authorized_callers@.contains_key(caller@),
    {
        self.authorized_callers.contains_key(caller)
    }

    /// Sets the storage version to 1 when it was never written.
    fn upgrade(&mut self)
        ensures
            *final(self) == (BufferPoolState {
                storage_version: if old(self).storage_version < 1 { 1 } else { old(self).storage_version },
                ..*old(self)
            }),
    {
        if self.storage_version < 1 {
            self.storage_version = 1;
        }
    }
}

/// Pool accounting: the pool balance covers every project's live buffer,
/// so a cancellation the project allows never drives it below zero.
pub proof fn lemma_pool_covers_each_project(s: BufferPoolState, project_id: Seq<u8>)
    requires
        s.wf(),
        s.buffer_records@.contains_key(project_id),
    ensures
        s.total_pool_balance@ >= s.buffer_records@[project_id].total_deposited@ - s.buffer_records@[project_id].total_cancelled@,
{
    s.buffer_records.lemma_finite();
    lemma_value_sum_covers(s.buffer_records@, s.buffer_records@.dom(), project_id, pool_weight());
}

} // verus!
