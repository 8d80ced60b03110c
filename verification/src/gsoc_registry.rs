//! GSOC ITMO serial registry: reservation, batch registration and
//! retirement of serials, with beneficiary tracking.
use vstd::prelude::*;

use crate::bytes::{copy_bytes, is_zero_address, zero_address};
use crate::env::BlockchainEnv;
use crate::mrv_common::{
    not_paused_error, require_not_paused, storage_version_upgrade_spec, upgrade_storage_version, MrvGovernanceModule,
    MrvGovernanceState, PauseProbe,
};
use crate::ledger::{lemma_value_sum_insert, lemma_value_sum_le, value_sum};
use crate::table::Table;

verus! {

/// Serial record stored after successful batch registration.
pub struct GsocSerialBatchRecord {
    pub project_id: Vec<u8>,
    pub vintage_year: u32,
    pub serial_start: Vec<u8>,
    pub serial_end: Vec<u8>,
    pub quantity: u64,
    pub registered_at: u64,
    pub retired: bool,
}

/// Retirement record for a specific serial range.
pub struct GsocRetirementRecord {
    pub serial: Vec<u8>,
    pub beneficiary_name: Vec<u8>,
    pub beneficiary_address: Vec<u8>,
    pub retired_at: u64,
    pub burn_tx_hash: Vec<u8>,
}

/// The storage of the GSOC registry.
pub struct GsocRegistryState {
    pub gov: MrvGovernanceState,
    pub serial_records: Table<GsocSerialBatchRecord>,
    pub retirement_records: Table<GsocRetirementRecord>,
    pub reserved_serials: Table<()>,
    pub total_supply: u64,
    pub total_retired: u64,
    /// Registered serials per project; an absent entry reads as `0`.
    pub project_serial_count: Table<u64>,
    pub governance_read_address: Option<Vec<u8>>,
    pub verifiers: Table<()>,
    pub storage_version: u32,
}

/// The quantity a serial batch adds to the supply.
pub open spec fn issued_weight() -> spec_fn(GsocSerialBatchRecord) -> int {
    |r: GsocSerialBatchRecord| r.quantity as int
}

/// The quantity a serial batch adds to the retired total.
pub open spec fn retired_weight() -> spec_fn(GsocSerialBatchRecord) -> int {
    |r: GsocSerialBatchRecord| if r.retired { r.quantity as int } else { 0 }
}

/// Whether a serial batch belongs to `project_id`, as a weight to count.
pub open spec fn project_weight(project_id: Seq<u8>) -> spec_fn(GsocSerialBatchRecord) -> int {
    |r: GsocSerialBatchRecord| if r.project_id@ == project_id { 1int } else { 0int }
}

/// A counter's value, reading `0` when absent.
pub open spec fn count_in(counts: Map<Seq<u8>, u64>, k: Seq<u8>) -> u64 {
    if counts.contains_key(k) { counts[k] } else { 0 }
}

impl GsocRegistryState {
    /// Tables are well formed; no serial is both reserved and registered; a
    /// retirement record exists exactly for the registered serials marked
    /// retired; the supply and retired totals are the sums over the
    /// registered batches.
    pub open spec fn wf(&self) -> bool {
        &&& self.serial_records.wf()
        &&& self.retirement_records.wf()
        &&& self.reserved_serials.wf()
        &&& self.project_serial_count.wf()
        &&& self.verifiers.wf()
        &&& forall|s: Seq<u8>| #[trigger] self.reserved_serials@.contains_key(s) ==> !self.serial_records@.contains_key(s)
        &&& forall|s: Seq<u8>| #[trigger] self.retirement_records@.contains_key(s)
            <==> (self.serial_records@.contains_key(s) && self.serial_records@[s].retired)
        &&& self.total_supply == value_sum(self.serial_records@, self.serial_records@.dom(), issued_weight())
        &&& self.total_retired == value_sum(self.serial_records@, self.serial_records@.dom(), retired_weight())
        &&& forall|p: Seq<u8>| #[trigger] count_in(self.project_serial_count@, p) == value_sum(
            self.serial_records@,
            self.serial_records@.dom(),
            project_weight(p),
        )
    }

    pub open spec fn project_count(&self, project_id: Seq<u8>) -> u64 {
        count_in(self.project_serial_count@, project_id)
    }

    pub open spec fn paused_error(&self, probe: PauseProbe) -> Option<&'static str> {
        not_paused_error(self.governance_read_address is Some, probe)
    }

    pub open spec fn admin_error(&self, env: &BlockchainEnv, probe: PauseProbe) -> Option<&'static str> {
        if self.paused_error(probe) is Some {
            self.paused_error(probe)
        } else {
            self.gov.governance_or_owner_error(env.caller@, env.owner@)
        }
    }

    pub open spec fn register_error(
        &self,
        env: &BlockchainEnv,
        probe: PauseProbe,
        itmo_serial: Seq<u8>,
        project_id: Seq<u8>,
        vintage_year: u32,
        quantity: u64,
    ) -> Option<&'static str> {
        if self.admin_error(env, probe) is Some {
            self.admin_error(env, probe)
        } else if itmo_serial.len() == 0 {
            Some("empty itmo_serial")
        } else if project_id.len() == 0 {
            Some("empty project_id")
        } else if !(2020 <= vintage_year <= 2100) {
            Some("vintage_year out of range")
        } else if quantity == 0 {
            Some("quantity must be positive")
        } else if !self.reserved_serials@.contains_key(itmo_serial) {
            Some("SERIAL_NOT_RESERVED: call reserveSerial() first")
        } else if self.serial_records@.contains_key(itmo_serial) {
            Some("DUPLICATE_SERIAL: serial already registered")
        } else if self.total_supply + quantity > u64::MAX {
            Some("total_supply overflow")
        } else if self.project_count(project_id) + 1 > u64::MAX {
            Some("project_serial_count overflow")
        } else {
            None
        }
    }

    pub open spec fn retirement_error(&self, env: &BlockchainEnv, probe: PauseProbe, itmo_serial: Seq<u8>) -> Option<&'static str> {
        if self.paused_error(probe) is Some {
            self.paused_error(probe)
        } else if !self.verifiers@.contains_key(env.caller@)
            && self.gov.governance_or_owner_error(env.caller@, env.owner@) is Some {
            Some("VERIFIER_ONLY: retirement recording requires a registered verifier")
        } else if itmo_serial.len() == 0 {
            Some("empty itmo_serial")
        } else if !self.serial_records@.contains_key(itmo_serial) {
            Some("serial not registered")
        } else if self.serial_records@[itmo_serial].retired {
            Some("SERIAL_ALREADY_RETIRED")
        } else if self.total_retired + self.serial_records@[itmo_serial].quantity > u64::MAX {
            Some("total_retired overflow")
        } else {
            None
        }
    }

    /// Everything but the serial bookkeeping is unchanged.
    pub open spec fn same_config(&self, o: &Self) -> bool {
        &&& self.gov == o.gov
        &&& self.governance_read_address == o.governance_read_address
        &&& self.verifiers == o.verifiers
        &&& self.storage_version == o.storage_version
    }
}

/// The events of the GSOC registry.
#[derive(Debug, PartialEq, Eq)]
pub enum GsocRegistryEvent {
    /// `serialReserved`.
    SerialReserved { itmo_serial: Vec<u8> },
    /// `serialReservationCancelled`.
    SerialReservationCancelled { itmo_serial: Vec<u8> },
    /// `serialBatchRegistered`.
    SerialBatchRegistered { itmo_serial: Vec<u8>, project_id: Vec<u8>, quantity: u64 },
    /// `serialRetired`.
    SerialRetired { itmo_serial: Vec<u8>, beneficiary_name: Vec<u8> },
    /// `verifierAdded`.
    VerifierAdded { verifier: Vec<u8> },
    /// `verifierRemoved`.
    VerifierRemoved { verifier: Vec<u8> },
}

/// The endpoints of the GSOC serial registry.
pub trait GsocRegistry: Sized {
    spec fn valid(&self) -> bool;

    fn init(env: &BlockchainEnv, governance: Vec<u8>) -> (r: Result<Self, &'static str>)
        ensures
            r matches Ok(s) ==> s.valid();

    fn set_governance_read_address(&mut self, env: &BlockchainEnv, addr: Vec<u8>) -> (r: Result<(), &'static str>)
        requires old(self).valid(), ensures final(self).valid();

    fn clear_governance_read_address(&mut self, env: &BlockchainEnv) -> (r: Result<(), &'static str>)
        requires old(self).valid(), ensures final(self).valid();

    fn reserve_serial(&mut self, env: &BlockchainEnv, probe: &PauseProbe, itmo_serial: Vec<u8>) -> (r: Result<(bool, Option<GsocRegistryEvent>), &'static str>)
        requires old(self).valid(), ensures final(self).valid();

    fn register_serial_batch(
        &mut self,
        env: &BlockchainEnv,
        probe: &PauseProbe,
        itmo_serial: Vec<u8>,
        project_id: Vec<u8>,
        vintage_year: u32,
        serial_start: Vec<u8>,
        serial_end: Vec<u8>,
        quantity: u64,
    ) -> (r: Result<GsocRegistryEvent, &'static str>)
        requires old(self).valid(), ensures final(self).valid();

    fn cancel_reservation(&mut self, env: &BlockchainEnv, probe: &PauseProbe, itmo_serial: Vec<u8>) -> (r: Result<GsocRegistryEvent, &'static str>)
        requires old(self).valid(), ensures final(self).valid();

    fn record_retirement(
        &mut self,
        env: &BlockchainEnv,
        probe: &PauseProbe,
        itmo_serial: Vec<u8>,
        beneficiary_name: Vec<u8>,
        beneficiary_address: Vec<u8>,
        burn_tx_hash: Vec<u8>,
    ) -> (r: Result<GsocRegistryEvent, &'static str>)
        requires old(self).valid(), ensures final(self).valid();

    fn get_serial_record(&self, itmo_serial: &[u8]) -> Option<&GsocSerialBatchRecord>
        requires self.valid();

    fn get_total_supply(&self) -> u64;

    fn get_total_retired(&self) -> u64;

    fn is_serial_retired(&self, itmo_serial: &[u8]) -> bool
        requires self.valid();

    fn get_retirement_record(&self, itmo_serial: &[u8]) -> Option<&GsocRetirementRecord>
        requires self.valid();

    fn get_project_serials(&self, project_id: &[u8]) -> u64
        requires self.valid();

    fn is_serial_reserved(&self, itmo_serial: &[u8]) -> bool
        requires self.valid();

    fn add_verifier(&mut self, env: &BlockchainEnv, probe: &PauseProbe, verifier: Vec<u8>) -> (r: Result<GsocRegistryEvent, &'static str>)
        requires old(self).valid(), ensures final(self).valid();

    fn remove_verifier(&mut self, env: &BlockchainEnv, probe: &PauseProbe, verifier: Vec<u8>) -> (r: Result<GsocRegistryEvent, &'static str>)
        requires old(self).valid(), ensures final(self).valid();

    fn is_verifier(&self, verifier: &[u8]) -> bool
        requires self.valid();

    fn upgrade(&mut self) -> (r: Result<(), &'static str>)
        requires old(self).valid(), ensures final(self).valid();
}

impl GsocRegistry for GsocRegistryState {
    open spec fn valid(&self) -> bool {
        self.wf()
    }

    fn init(env: &BlockchainEnv, governance: Vec<u8>) -> (r: Result<Self, &'static str>)
        ensures
            governance@ == zero_address() ==> r == Err::<Self, &'static str>("governance must not be zero"),
            governance@ != zero_address() ==> (r matches Ok(s) && {
                &&& s.wf()
                &&& s.gov.governance == Some(governance)
                &&& s.serial_records@ == Map::<Seq<u8>, GsocSerialBatchRecord>::empty()
                &&& s.reserved_serials@ == Map::<Seq<u8>, ()>::empty()
                &&& s.verifiers@ == Map::<Seq<u8>, ()>::empty()
                &&& s.total_supply == 0
                &&& s.total_retired == 0
                &&& s.governance_read_address is None
                &&& s.storage_version == 1
            }),
    {
        if is_zero_address(&governance) {
            return Err("governance must not be zero");
        }
        Ok(GsocRegistryState {
            gov: MrvGovernanceState::with_governance(governance),
            serial_records: Table::new(),
            retirement_records: Table::new(),
            reserved_serials: Table::new(),
            total_supply: 0,
            total_retired: 0,
            project_serial_count: Table::new(),
            governance_read_address: None,
            verifiers: Table::new(),
            storage_version: 1,
        })
    }

    fn set_governance_read_address(&mut self, env: &BlockchainEnv, addr: Vec<u8>) -> (r: Result<(), &'static str>)
        ensures
            old(self).gov.governance_or_owner_error(env.caller@, env.owner@) is Some ==>
                r == Err::<(), &'static str>("caller not authorized") && *final(self) == *old(self),
            old(self).gov.governance_or_owner_error(env.caller@, env.owner@) is None && addr@ == zero_address() ==>
                r == Err::<(), &'static str>("governance_read_address must not be zero") && *final(self) == *old(self),
            old(self).gov.governance_or_owner_error(env.caller@, env.owner@) is None && addr@ != zero_address() ==>
                r is Ok && *final(self) == (GsocRegistryState { governance_read_address: Some(addr), ..*old(self) }),
    {
        if let Err(e) = self.gov.require_governance_or_owner(env) {
            return Err(e);
        }
        if is_zero_address(&addr) {
            return Err("governance_read_address must not be zero");
        }
        self.governance_read_address = Some(addr);
        Ok(())
    }

    fn clear_governance_read_address(&mut self, env: &BlockchainEnv) -> (r: Result<(), &'static str>)
        ensures
            old(self).gov.governance_or_owner_error(env.caller@, env.owner@) is Some ==>
                r == Err::<(), &'static str>("caller not authorized") && *final(self) == *old(self),
            old(self).gov.governance_or_owner_error(env.caller@, env.owner@) is None ==>
                r is Ok && *final(self) == (GsocRegistryState { governance_read_address: None, ..*old(self) }),
    {
        if let Err(e) = self.gov.require_governance_or_owner(env) {
            return Err(e);
        }
        self.governance_read_address = None;
        Ok(())
    }

    /// Reserves a serial before registration. Answers `false`, changing
    /// nothing, when the serial is already reserved or registered.
    fn reserve_serial(&mut self, env: &BlockchainEnv, probe: &PauseProbe, itmo_serial: Vec<u8>) -> (r: Result<(bool, Option<GsocRegistryEvent>), &'static str>)
        ensures
            old(self).admin_error(env, *probe) is Some ==>
                r == Err::<(bool, Option<GsocRegistryEvent>), &'static str>(old(self).admin_error(env, *probe)->0) && *final(self) == *old(self),
            old(self).admin_error(env, *probe) is None && itmo_serial@.len() == 0 ==>
                r == Err::<(bool, Option<GsocRegistryEvent>), &'static str>("empty itmo_serial") && *final(self) == *old(self),
            old(self).admin_error(env, *probe) is None && itmo_serial@.len() != 0 ==> {
                if old(self).reserved_serials@.contains_key(itmo_serial@) || old(self).serial_records@.contains_key(itmo_serial@) {
                    r matches Ok((false, None)) && *final(self) == *old(self)
                } else {
                    &&& r matches Ok((true, Some(GsocRegistryEvent::SerialReserved { itmo_serial: s }))) && s@ == itmo_serial@
                    &&& final(self).reserved_serials@ == old(self).reserved_serials@.insert(itmo_serial@, ())
                    &&& final(self).serial_records == old(self).serial_records
                    &&& final(self).retirement_records == old(self).retirement_records
                    &&& final(self).project_serial_count == old(self).project_serial_count
                    &&& final(self).total_supply == old(self).total_supply
                    &&& final(self).total_retired == old(self).total_retired
                    &&& final(self).same_config(old(self))
                }
            },
    {
        if let Err(e) = require_not_paused(&self.governance_read_address, probe) {
            return Err(e);
        }
        if let Err(e) = self.gov.require_governance_or_owner(env) {
            return Err(e);
        }
        if itmo_serial.len() == 0 {
            return Err("empty itmo_serial");
        }
        if self.reserved_serials.contains_key(&itmo_serial) {
            return Ok((false, None));
        }
        if self.serial_records.contains_key(&itmo_serial) {
            return Ok((false, None));
        }
        let event = GsocRegistryEvent::SerialReserved { itmo_serial: copy_bytes(&itmo_serial) };
        self.reserved_serials.insert(itmo_serial, ());
        Ok((true, Some(event)))
    }

    /// Finalizes registration of a reserved serial.
    fn register_serial_batch(
        &mut self,
        env: &BlockchainEnv,
        probe: &PauseProbe,
        itmo_serial: Vec<u8>,
        project_id: Vec<u8>,
        vintage_year: u32,
        serial_start: Vec<u8>,
        serial_end: Vec<u8>,
        quantity: u64,
    ) -> (r: Result<GsocRegistryEvent, &'static str>)
        ensures
            match old(self).register_error(env, *probe, itmo_serial@, project_id@, vintage_year, quantity) {
                Some(e) => r == Err::<GsocRegistryEvent, &'static str>(e) && *final(self) == *old(self),
                None => {
                    &&& r matches Ok(GsocRegistryEvent::SerialBatchRegistered { itmo_serial: s, project_id: pid, quantity: q })
                        && s@ == itmo_serial@ && pid@ == project_id@ && q == quantity
                    &&& final(self).serial_records@ == old(self).serial_records@.insert(
                        itmo_serial@,
                        GsocSerialBatchRecord {
                            project_id,
                            vintage_year,
                            serial_start,
                            serial_end,
                            quantity,
                            registered_at: env.block_timestamp,
                            retired: false,
                        },
                    )
                    &&& final(self).reserved_serials@ == old(self).reserved_serials@.remove(itmo_serial@)
                    &&& final(self).total_supply == old(self).total_supply + quantity
                    &&& final(self).project_serial_count@ == old(self).project_serial_count@.insert(
                        project_id@, (old(self).project_count(project_id@) + 1) as u64)
                    &&& final(self).total_retired == old(self).total_retired
                    &&& final(self).retirement_records == old(self).retirement_records
                    &&& final(self).same_config(old(self))
                },
            },
    {
        if let Err(e) = require_not_paused(&self.governance_read_address, probe) {
            return Err(e);
        }
        if let Err(e) = self.gov.require_governance_or_owner(env) {
            return Err(e);
        }
        if itmo_serial.len() == 0 {
            return Err("empty itmo_serial");
        }
        if project_id.len() == 0 {
            return Err("empty project_id");
        }
        if !(2020 <= vintage_year && vintage_year <= 2100) {
            return Err("vintage_year out of range");
        }
        if quantity == 0 {
            return Err("quantity must be positive");
        }
        if !self.reserved_serials.contains_key(&itmo_serial) {
            return Err("SERIAL_NOT_RESERVED: call reserveSerial() first");
        }
        if self.serial_records.contains_key(&itmo_serial) {
            return Err("DUPLICATE_SERIAL: serial already registered");
        }
        if self.total_supply > u64::MAX - quantity {
            return Err("total_supply overflow");
        }
        let count: u64 = match self.project_serial_count.get(&project_id) {
            Some(c) => *c,
            None => 0,
        };
        if count == u64::MAX {
            return Err("project_serial_count overflow");
        }
        let event = GsocRegistryEvent::SerialBatchRegistered {
            itmo_serial: copy_bytes(&itmo_serial),
            project_id: copy_bytes(&project_id),
            quantity,
        };
        let count_key = copy_bytes(&project_id);
        let reserved_key = copy_bytes(&itmo_serial);
        let record = GsocSerialBatchRecord {
            project_id,
            vintage_year,
            serial_start,
            serial_end,
            quantity,
            registered_at: env.block_timestamp,
            retired: false,
        };
        let ghost k = itmo_serial@;
        let ghost rec = record;
        self.serial_records.insert(itmo_serial, record);
        self.total_supply = self.total_supply + quantity;
        proof {
            old(self).serial_records.lemma_finite();
            lemma_value_sum_insert(old(self).serial_records@, k, rec, issued_weight());
            lemma_value_sum_insert(old(self).serial_records@, k, rec, retired_weight());
        }
        self.project_serial_count.insert(count_key, count + 1);
        self.reserved_serials.remove(&reserved_key);
        proof {
            assert forall|p: Seq<u8>| #[trigger]
                count_in(self.project_serial_count@, p) == value_sum(self.serial_records@, self.serial_records@.dom(), project_weight(p)) by {
                lemma_value_sum_insert(old(self).serial_records@, k, rec, project_weight(p));
                assert(count_in(old(self).project_serial_count@, p) == value_sum(
                    old(self).serial_records@,
                    old(self).serial_records@.dom(),
                    project_weight(p),
                ));
            }
        }
        Ok(event)
    }

    /// Cancels a reservation that has not been finalized.
    fn cancel_reservation(&mut self, env: &BlockchainEnv, probe: &PauseProbe, itmo_serial: Vec<u8>) -> (r: Result<GsocRegistryEvent, &'static str>)
        ensures
            old(self).admin_error(env, *probe) is Some ==>
                r == Err::<GsocRegistryEvent, &'static str>(old(self).admin_error(env, *probe)->0) && *final(self) == *old(self),
            old(self).admin_error(env, *probe) is None && itmo_serial@.len() == 0 ==>
                r == Err::<GsocRegistryEvent, &'static str>("empty itmo_serial") && *final(self) == *old(self),
            old(self).admin_error(env, *probe) is None && itmo_serial@.len() != 0
                && !old(self).reserved_serials@.contains_key(itmo_serial@) ==>
                r == Err::<GsocRegistryEvent, &'static str>("SERIAL_NOT_RESERVED: cannot cancel a non-reserved serial") && *final(self) == *old(self),
            old(self).admin_error(env, *probe) is None && itmo_serial@.len() != 0
                && old(self).reserved_serials@.contains_key(itmo_serial@) ==> {
                &&& r matches Ok(GsocRegistryEvent::SerialReservationCancelled { itmo_serial: s }) && s@ == itmo_serial@
                &&& final(self).reserved_serials@ == old(self).reserved_serials@.remove(itmo_serial@)
                &&& final(self).serial_records == old(self).serial_records
                &&& final(self).retirement_records == old(self).retirement_records
                &&& final(self).project_serial_count == old(self).project_serial_count
                &&& final(self).total_supply == old(self).total_supply
                &&& final(self).total_retired == old(self).total_retired
                &&& final(self).same_config(old(self))
            },
    {
        if let Err(e) = require_not_paused(&self.governance_read_address, probe) {
            return Err(e);
        }
        if let Err(e) = self.gov.require_governance_or_owner(env) {
            return Err(e);
        }
        if itmo_serial.len() == 0 {
            return Err("empty itmo_serial");
        }
        if !self.reserved_serials.contains_key(&itmo_serial) {
            return Err("SERIAL_NOT_RESERVED: cannot cancel a non-reserved serial");
        }
        if self.serial_records.contains_key(&itmo_serial) {
            return Err("SERIAL_ALREADY_REGISTERED: cannot cancel a registered serial");
        }
        self.reserved_serials.remove(&itmo_serial);
        Ok(GsocRegistryEvent::SerialReservationCancelled { itmo_serial })
    }

    /// A registered verifier, the owner or the active governance marks a
    /// registered serial as retired and records the beneficiary.
    fn record_retirement(
        &mut self,
        env: &BlockchainEnv,
        probe: &PauseProbe,
        itmo_serial: Vec<u8>,
        beneficiary_name: Vec<u8>,
        beneficiary_address: Vec<u8>,
        burn_tx_hash: Vec<u8>,
    ) -> (r: Result<GsocRegistryEvent, &'static str>)
        ensures
            match old(self).retirement_error(env, *probe, itmo_serial@) {
                Some(e) => r == Err::<GsocRegistryEvent, &'static str>(e) && *final(self) == *old(self),
                None => {
                    let rec = old(self).serial_records@[itmo_serial@];
                    &&& r matches Ok(GsocRegistryEvent::SerialRetired { itmo_serial: s, beneficiary_name: b })
                        && s@ == itmo_serial@ && b@ == beneficiary_name@
                    &&& final(self).serial_records@ == old(self).serial_records@.insert(
                        itmo_serial@, GsocSerialBatchRecord { retired: true, ..rec })
                    &&& final(self).retirement_records@ == old(self).retirement_records@.insert(
                        itmo_serial@,
                        GsocRetirementRecord {
                            serial: itmo_serial,
                            beneficiary_name,
                            beneficiary_address,
                            retired_at: env.block_timestamp,
                            burn_tx_hash,
                        },
                    )
                    &&& final(self).total_retired == old(self).total_retired + rec.quantity
                    &&& final(self).total_supply == old(self).total_supply
                    &&& final(self).reserved_serials == old(self).reserved_serials
                    &&& final(self).project_serial_count == old(self).project_serial_count
                    &&& final(self).same_config(old(self))
                },
            },
    {
        if let Err(e) = require_not_paused(&self.governance_read_address, probe) {
            return Err(e);
        }
        if !self.verifiers.contains_key(&env.caller) && self.gov.require_governance_or_owner(env).is_err() {
            return Err("VERIFIER_ONLY: retirement recording requires a registered verifier");
        }
        if itmo_serial.len() == 0 {
            return Err("empty itmo_serial");
        }
        let (retired, quantity) = match self.serial_records.get(&itmo_serial) {
            None => {
                return Err("serial not registered");
            },
            Some(rec) => (rec.retired, rec.quantity),
        };
        if retired {
            return Err("SERIAL_ALREADY_RETIRED");
        }
        if self.total_retired > u64::MAX - quantity {
            return Err("total_retired overflow");
        }
        let rec = self.serial_records.take(&itmo_serial).unwrap();
        let record_key = copy_bytes(&itmo_serial);
        let retirement_key = copy_bytes(&itmo_serial);
        let ghost k = record_key@;
        let ghost retired_rec = GsocSerialBatchRecord { retired: true, ..rec };
        self.serial_records.insert(record_key, GsocSerialBatchRecord { retired: true, ..rec });
        proof {
            old(self).serial_records.lemma_finite();
            assert(self.serial_records@ =~= old(self).serial_records@.insert(k, retired_rec));
            lemma_value_sum_insert(old(self).serial_records@, k, retired_rec, issued_weight());
            lemma_value_sum_insert(old(self).serial_records@, k, retired_rec, retired_weight());
            assert forall|p: Seq<u8>| #[trigger]
                count_in(self.project_serial_count@, p) == value_sum(self.serial_records@, self.serial_records@.dom(), project_weight(p)) by {
                lemma_value_sum_insert(old(self).serial_records@, k, retired_rec, project_weight(p));
                assert(count_in(old(self).project_serial_count@, p) == value_sum(
                    old(self).serial_records@,
                    old(self).serial_records@.dom(),
                    project_weight(p),
                ));
            }
        }
        let event = GsocRegistryEvent::SerialRetired {
            itmo_serial: copy_bytes(&itmo_serial),
            beneficiary_name: copy_bytes(&beneficiary_name),
        };
        let retirement = GsocRetirementRecord {
            serial: itmo_serial,
            beneficiary_name,
            beneficiary_address,
            retired_at: env.block_timestamp,
            burn_tx_hash,
        };
        self.retirement_records.insert(retirement_key, retirement);
        self.total_retired = self.total_retired + quantity;
        Ok(event)
    }

    fn get_serial_record(&self, itmo_serial: &[u8]) -> (r: Option<&GsocSerialBatchRecord>)
        ensures
            match r {
                Some(rec) => self.serial_records@.contains_key(itmo_serial@) && *rec == self.serial_records@[itmo_serial@],
                None => !self.serial_records@.contains_key(itmo_serial@),
            },
    {
        self.serial_records.get(itmo_serial)
    }

    fn get_total_supply(&self) -> (r: u64)
        ensures r == self.total_supply,
    {
        self.total_supply
    }

    fn get_total_retired(&self) -> (r: u64)
        ensures r == self.total_retired,
    {
        self.total_retired
    }

    fn is_serial_retired(&self, itmo_serial: &[u8]) -> (r: bool)
        ensures
            r == (self.serial_records@.contains_key(itmo_serial@) && self.serial_records@[itmo_serial@].retired),
    {
        match self.serial_records.get(itmo_serial) {
            Some(rec) => rec.retired,
            None => false,
        }
    }

    fn get_retirement_record(&self, itmo_serial: &[u8]) -> (r: Option<&GsocRetirementRecord>)
        ensures
            match r {
                Some(rec) => self.retirement_records@.contains_key(itmo_serial@) && *rec == self.retirement_records@[itmo_serial@],
                None => !self.retirement_records@.contains_key(itmo_serial@),
            },
    {
        self.retirement_records.get(itmo_serial)
    }

    fn get_project_serials(&self, project_id: &[u8]) -> (r: u64)
        ensures
            r == self.project_count(project_id@),
    {
        match self.project_serial_count.get(project_id) {
            Some(c) => *c,
            None => 0,
        }
    }

    fn is_serial_reserved(&self, itmo_serial: &[u8]) -> (r: bool)
        ensures
            r == self.reserved_serials@.contains_key(itmo_serial@),
    {
        self.reserved_serials.contains_key(itmo_serial)
    }

    /// Registers a verifier address.
    fn add_verifier(&mut self, env: &BlockchainEnv, probe: &PauseProbe, verifier: Vec<u8>) -> (r: Result<GsocRegistryEvent, &'static str>)
        ensures
            old(self).admin_error(env, *probe) is Some ==>
                r == Err::<GsocRegistryEvent, &'static str>(old(self).admin_error(env, *probe)->0) && *final(self) == *old(self),
            old(self).admin_error(env, *probe) is None && verifier@ == zero_address() ==>
                r == Err::<GsocRegistryEvent, &'static str>("verifier must not be zero") && *final(self) == *old(self),
            old(self).admin_error(env, *probe) is None && verifier@ != zero_address() ==> {
                &&& r matches Ok(GsocRegistryEvent::VerifierAdded { verifier: v }) && v@ == verifier@
                &&& final(self).verifiers@ == old(self).verifiers@.insert(verifier@, ())
                &&& final(self).serial_records == old(self).serial_records
                &&& final(self).reserved_serials == old(self).reserved_serials
                &&& final(self).gov == old(self).gov
            },
    {
        if let Err(e) = require_not_paused(&self.governance_read_address, probe) {
            return Err(e);
        }
        if let Err(e) = self.gov.require_governance_or_owner(env) {
            return Err(e);
        }
        if is_zero_address(&verifier) {
            return Err("verifier must not be zero");
        }
        let event = GsocRegistryEvent::VerifierAdded { verifier: copy_bytes(&verifier) };
        self.verifiers.insert(verifier, ());
        Ok(event)
    }

    /// Removes a verifier; only active governance may do so.
    fn remove_verifier(&mut self, env: &BlockchainEnv, probe: &PauseProbe, verifier: Vec<u8>) -> (r: Result<GsocRegistryEvent, &'static str>)
        ensures
            old(self).paused_error(*probe) is Some ==>
                r == Err::<GsocRegistryEvent, &'static str>(old(self).paused_error(*probe)->0) && *final(self) == *old(self),
            old(self).paused_error(*probe) is None && !(old(self).gov.governance is Some && env.caller@ == old(self).gov.governance->0@) ==>
                r == Err::<GsocRegistryEvent, &'static str>("GOVERNANCE_ONLY: verifier removal requires governance approval") && *final(self) == *old(self),
            old(self).paused_error(*probe) is None && (old(self).gov.governance is Some && env.caller@ == old(self).gov.governance->0@)
                && !old(self).verifiers@.contains_key(verifier@) ==>
                r == Err::<GsocRegistryEvent, &'static str>("verifier not registered") && *final(self) == *old(self),
            old(self).paused_error(*probe) is None && (old(self).gov.governance is Some && env.caller@ == old(self).gov.governance->0@)
                && old(self).verifiers@.contains_key(verifier@) ==> {
                &&& r matches Ok(GsocRegistryEvent::VerifierRemoved { verifier: v }) && v@ == verifier@
                &&& final(self).verifiers@ == old(self).verifiers@.remove(verifier@)
                &&& final(self).serial_records == old(self).serial_records
                &&& final(self).reserved_serials == old(self).reserved_serials
                &&& final(self).gov == old(self).gov
            },
    {
        if let Err(e) = require_not_paused(&self.governance_read_address, probe) {
            return Err(e);
        }
        let is_governance = match &self.gov.governance {
            Some(g) => crate::bytes::bytes_eq(&env.caller, g),
            None => false,
        };
        if !is_governance {
            return Err("GOVERNANCE_ONLY: verifier removal requires governance approval");
        }
        if !self.verifiers.contains_key(&verifier) {
            return Err("verifier not registered");
        }
        self.verifiers.remove(&verifier);
        Ok(GsocRegistryEvent::VerifierRemoved { verifier })
    }

    fn is_verifier(&self, verifier: &[u8]) -> (r: bool)
        ensures
            r == self.verifiers@.contains_key(verifier@),
    {
        self.verifiers.contains_key(verifier)
    }

    /// Resolves the storage version fail-closed: only an uninitialized slot
    /// or version 1 is accepted.
    fn upgrade(&mut self) -> (r: Result<(), &'static str>)
        ensures
            match storage_version_upgrade_spec(old(self).storage_version, 1, 1) {
                Ok(v) => r is Ok && *final(self) == (GsocRegistryState { storage_version: v, ..*old(self) }),
                Err(e) => r == Err::<(), &'static str>(e) && *final(self) == *old(self),
            },
    {
        upgrade_storage_version(&mut self.storage_version, 1, 1)
    }
}

/// A retired serial stays retired: recording its retirement again is
/// refused.
pub proof fn lemma_retired_serial_is_final(s: GsocRegistryState, env: BlockchainEnv, probe: PauseProbe, itmo_serial: Seq<u8>)
    requires
        s.serial_records@.contains_key(itmo_serial),
        s.serial_records@[itmo_serial].retired,
    ensures
        s.retirement_error(&env, probe, itmo_serial) is Some,
{
}

/// Supply accounting: the retired total never exceeds the issued supply.
pub proof fn lemma_retired_within_supply(s: GsocRegistryState)
    requires
        s.wf(),
    ensures
        s.total_retired <= s.total_supply,
{
    s.serial_records.lemma_finite();
    lemma_value_sum_le(s.serial_records@, s.serial_records@.dom(), retired_weight(), issued_weight());
}

} // verus!
