//! Governance rules and shared types of the MRV contracts.
use vstd::prelude::*;

use crate::bytes::{bytes_eq, copy_bytes, new_zero_address, push_u64_be, u64_be, zero_address, is_zero_address, lemma_u64_be_injective};
use crate::env::BlockchainEnv;

verus! {

pub const PENDING_GOVERNANCE_ACCEPTANCE_ROUNDS: u64 = 1_000;

pub const STORAGE_VERSION_UNINITIALIZED: u32 = 0;

/// The outcome of upgrading a contract whose storage-version slot holds
/// `stored`, when the code expects `current` and still reads layouts from
/// `minimum_supported` on.
pub open spec fn storage_version_upgrade_spec(stored: u32, current: u32, minimum_supported: u32) -> Result<u32, &'static str> {
    if stored == STORAGE_VERSION_UNINITIALIZED {
        Ok(current)
    } else if stored > current {
        Err("unsupported future storage version")
    } else if stored < minimum_supported {
        Err("unsupported legacy storage version; explicit migration required")
    } else {
        Ok(current)
    }
}

/// Resolves an MRV contract upgrade target in a fail-closed way: an
/// uninitialized slot bootstraps to `current`, versions in
/// `minimum_supported..=current` are accepted, all others are rejected.
pub fn resolve_storage_version_upgrade(stored: u32, current: u32, minimum_supported: u32) -> (r: Result<u32, &'static str>)
    ensures
        r == storage_version_upgrade_spec(stored, current, minimum_supported),
{
    if stored == STORAGE_VERSION_UNINITIALIZED {
        return Ok(current);
    }
    if stored > current {
        return Err("unsupported future storage version");
    }
    if stored < minimum_supported {
        return Err("unsupported legacy storage version; explicit migration required");
    }
    Ok(current)
}

/// An accepted upgrade always lands on the current version.
pub proof fn lemma_upgrade_lands_on_current(stored: u32, current: u32, minimum_supported: u32)
    ensures
        storage_version_upgrade_spec(stored, current, minimum_supported) is Ok ==>
            storage_version_upgrade_spec(stored, current, minimum_supported) == Ok::<u32, &'static str>(current),
        storage_version_upgrade_spec(stored, current, minimum_supported) is Ok <==>
            (stored == 0 || minimum_supported <= stored <= current),
{
}

/// Encodes a `u64` as an 8-byte big-endian storage-key component.
pub fn period_key(n: u64) -> (r: Vec<u8>)
    ensures
        r@ == u64_be(n),
{
    let mut buf: Vec<u8> = Vec::new();
    push_u64_be(&mut buf, n);
    assert(buf@ =~= u64_be(n));
    buf
}

/// Encodes a `u8` source tag as a 1-byte storage-key component.
pub fn source_key(s: u8) -> (r: Vec<u8>)
    ensures
        r@ == seq![s],
{
    let mut buf: Vec<u8> = Vec::new();
    buf.push(s);
    assert(buf@ =~= seq![s]);
    buf
}

/// Distinct periods never share a storage key.
pub proof fn lemma_period_key_injective(a: u64, b: u64)
    ensures
        u64_be(a) == u64_be(b) <==> a == b,
{
    if u64_be(a) == u64_be(b) {
        lemma_u64_be_injective(a, b);
    }
}

/// VVB accreditation record with role assignment and approval state.
pub struct VerifierAccreditation {
    pub verifier: Vec<u8>,
    pub approved: bool,
    pub role: Vec<u8>,
    pub updated_at: u64,
}

/// GSOC verifier registry entry with credentials, jurisdiction, and approval state.
pub struct GsocVerifierEntry {
    pub credentials_cid: Vec<u8>,
    pub jurisdiction: Vec<u8>,
    pub registered_at: u64,
    pub approved: bool,
}

/// Anchored MRV report proof binding a `(tenant, farm, season)` tuple to a
/// content-addressed report hash and its evidence manifest.
pub struct MrvReportProof {
    pub report_id: Vec<u8>,
    pub public_tenant_id: Vec<u8>,
    pub public_farm_id: Vec<u8>,
    pub public_season_id: Vec<u8>,
    pub public_project_id: Vec<u8>,
    pub report_hash: Vec<u8>,
    pub hash_algo: Vec<u8>,
    pub canonicalization: Vec<u8>,
    pub methodology_version: u64,
    pub anchored_at: u64,
    pub evidence_manifest_hash: Vec<u8>,
}

impl MrvReportProof {
    /// Field-by-field equality of the byte contents.
    pub open spec fn same(&self, o: &MrvReportProof) -> bool {
        &&& self.report_id@ == o.report_id@
        &&& self.public_tenant_id@ == o.public_tenant_id@
        &&& self.public_farm_id@ == o.public_farm_id@
        &&& self.public_season_id@ == o.public_season_id@
        &&& self.public_project_id@ == o.public_project_id@
        &&& self.report_hash@ == o.report_hash@
        &&& self.hash_algo@ == o.hash_algo@
        &&& self.canonicalization@ == o.canonicalization@
        &&& self.methodology_version == o.methodology_version
        &&& self.anchored_at == o.anchored_at
        &&& self.evidence_manifest_hash@ == o.evidence_manifest_hash@
    }

    pub fn is_same(&self, o: &MrvReportProof) -> (r: bool)
        ensures
            r == self.same(o),
    {
        bytes_eq(&self.report_id, &o.report_id) && bytes_eq(&self.public_tenant_id, &o.public_tenant_id)
            && bytes_eq(&self.public_farm_id, &o.public_farm_id) && bytes_eq(
            &self.public_season_id,
            &o.public_season_id,
        ) && bytes_eq(&self.public_project_id, &o.public_project_id) && bytes_eq(
            &self.report_hash,
            &o.report_hash,
        ) && bytes_eq(&self.hash_algo, &o.hash_algo) && bytes_eq(
            &self.canonicalization,
            &o.canonicalization,
        ) && self.methodology_version == o.methodology_version && self.anchored_at
            == o.anchored_at && bytes_eq(&self.evidence_manifest_hash, &o.evidence_manifest_hash)
    }
}

/// The stored value of an address slot: its content, or the zero address
/// when the slot is empty.
pub open spec fn slot_or_zero(slot: Option<Vec<u8>>) -> Seq<u8> {
    match slot {
        Some(a) => a@,
        None => zero_address(),
    }
}

/// Whether `caller` equals the address held in `slot` (an empty slot reads
/// as the zero address).
pub fn slot_matches(slot: &Option<Vec<u8>>, caller: &[u8]) -> (r: bool)
    ensures
        r == (slot_or_zero(*slot) == caller@),
{
    match slot {
        Some(a) => bytes_eq(a, caller),
        None => is_zero_address(caller),
    }
}

/// Two-step governance transfer shared by the MRV contracts: the owner
/// proposes governance, the active governance rotates it, and once
/// governance is accepted it can no longer be revoked. The guarded
/// endpoints admit the owner and, once it is active, the governance.
pub struct MrvGovernanceState {
    pub governance: Option<Vec<u8>>,
    pub pending_governance: Option<Vec<u8>>,
    pub pending_governance_expires_at_round: u64,
}

impl MrvGovernanceState {
    pub fn new() -> (m: Self)
        ensures
            m.governance is None,
            m.pending_governance is None,
            m.pending_governance_expires_at_round == 0,
    {
        MrvGovernanceState { governance: None, pending_governance: None, pending_governance_expires_at_round: 0 }
    }

    /// A module whose governance is already set (as `init` does).
    pub fn with_governance(governance: Vec<u8>) -> (m: Self)
        ensures
            m.governance == Some(governance),
            m.pending_governance is None,
            m.pending_governance_expires_at_round == 0,
    {
        MrvGovernanceState { governance: Some(governance), pending_governance: None, pending_governance_expires_at_round: 0 }
    }

    /// Who may act as governance: the owner, and the active governance once
    /// it exists.
    pub open spec fn governance_or_owner_error(&self, caller: Seq<u8>, owner: Seq<u8>) -> Option<&'static str> {
        if caller == owner || (self.governance is Some && caller == self.governance->0@) {
            None
        } else {
            Some("caller not authorized")
        }
    }

    /// Who may propose governance: the active governance once it exists,
    /// the owner before that.
    pub open spec fn rotation_error(&self, caller: Seq<u8>, owner: Seq<u8>) -> Option<&'static str> {
        let allowed = match self.governance {
            Some(g) => caller == g@,
            None => caller == owner,
        };
        if allowed { None } else { Some("caller not authorized") }
    }

    pub open spec fn set_governance_error(&self, env: &BlockchainEnv, governance: Seq<u8>) -> Option<&'static str> {
        if governance == zero_address() {
            Some("governance must not be zero")
        } else if self.rotation_error(env.caller@, env.owner@) is Some {
            Some("caller not authorized")
        } else if env.block_round + PENDING_GOVERNANCE_ACCEPTANCE_ROUNDS > u64::MAX {
            Some("block round + acceptance window overflow")
        } else {
            None
        }
    }

    pub open spec fn accept_governance_error(&self, env: &BlockchainEnv) -> Option<&'static str> {
        match self.pending_governance {
            None => Some("pending governance not set"),
            Some(p) => if env.block_round > self.pending_governance_expires_at_round {
                Some("pending governance acceptance expired")
            } else if env.caller@ != p@ {
                Some("caller not pending governance")
            } else {
                None
            },
        }
    }

    pub open spec fn revoke_governance_error(&self, env: &BlockchainEnv) -> Option<&'static str> {
        if env.caller@ != env.owner@ {
            Some("caller not authorized")
        } else if self.governance is Some {
            Some("active governance cannot be revoked")
        } else {
            None
        }
    }
}

/// The events of the governance transfer.
#[derive(Debug, PartialEq, Eq)]
pub enum MrvGovernanceEvent {
    /// A governance address was proposed.
    Proposed { governance: Vec<u8> },
    /// The pending governance accepted the role.
    Accepted { governance: Vec<u8> },
    /// Governance was revoked; `previous` is the address it had (zero when none).
    Revoked { previous: Vec<u8> },
}

/// The governance endpoints that the MRV contracts share.
pub trait MrvGovernanceModule {
    /// Allows the owner, and the configured governance address once
    /// governance is active.
    fn require_governance_or_owner(&self, env: &BlockchainEnv) -> (r: Result<(), &'static str>);

    /// Proposes the initial governance (owner, while none is active) or
    /// rotates it (the active governance). The proposal must be accepted
    /// within `PENDING_GOVERNANCE_ACCEPTANCE_ROUNDS` rounds.
    fn set_governance(&mut self, env: &BlockchainEnv, governance: Vec<u8>) -> (r: Result<MrvGovernanceEvent, &'static str>);

    /// The pending governance accepts the role before its window expires.
    fn accept_governance(&mut self, env: &BlockchainEnv) -> (r: Result<MrvGovernanceEvent, &'static str>);

    /// The owner cancels a bootstrap-time pending governance, only while no
    /// governance has been accepted.
    fn revoke_governance(&mut self, env: &BlockchainEnv) -> (r: Result<MrvGovernanceEvent, &'static str>);
}

impl MrvGovernanceModule for MrvGovernanceState {
    /// Allows the owner, and the configured governance address once
    /// governance is active.
    fn require_governance_or_owner(&self, env: &BlockchainEnv) -> (r: Result<(), &'static str>)
        ensures
            match self.governance_or_owner_error(env.caller@, env.owner@) {
                Some(e) => r == Err::<(), &'static str>(e),
                None => r is Ok,
            },
    {
        if bytes_eq(&env.caller, &env.owner) {
            return Ok(());
        }
        match &self.governance {
            Some(g) => {
                if bytes_eq(&env.caller, g) {
                    Ok(())
                } else {
                    Err("caller not authorized")
                }
            },
            None => Err("caller not authorized"),
        }
    }

    /// Proposes the initial governance (owner, while none is active) or
    /// rotates it (the active governance). The proposal must be accepted
    /// within `PENDING_GOVERNANCE_ACCEPTANCE_ROUNDS` rounds.
    fn set_governance(&mut self, env: &BlockchainEnv, governance: Vec<u8>) -> (r: Result<MrvGovernanceEvent, &'static str>)
        ensures
            match old(self).set_governance_error(env, governance@) {
                Some(e) => r == Err::<MrvGovernanceEvent, &'static str>(e) && *final(self) == *old(self),
                None => {
                    &&& r matches Ok(MrvGovernanceEvent::Proposed { governance: g }) && g@ == governance@
                    &&& final(self).governance == old(self).governance
                    &&& final(self).pending_governance == Some(governance)
                    &&& final(self).pending_governance_expires_at_round == env.block_round + PENDING_GOVERNANCE_ACCEPTANCE_ROUNDS
                },
            },
            // proposing never changes who governs
            final(self).governance == old(self).governance,
    {
        if is_zero_address(&governance) {
            return Err("governance must not be zero");
        }
        let allowed = match &self.governance {
            Some(g) => bytes_eq(&env.caller, g),
            None => bytes_eq(&env.caller, &env.owner),
        };
        if !allowed {
            return Err("caller not authorized");
        }
        if env.block_round > u64::MAX - PENDING_GOVERNANCE_ACCEPTANCE_ROUNDS {
            return Err("block round + acceptance window overflow");
        }
        let event = MrvGovernanceEvent::Proposed { governance: copy_bytes(&governance) };
        self.pending_governance = Some(governance);
        self.pending_governance_expires_at_round = env.block_round + PENDING_GOVERNANCE_ACCEPTANCE_ROUNDS;
        Ok(event)
    }

    /// The pending governance accepts the role before its window expires.
    fn accept_governance(&mut self, env: &BlockchainEnv) -> (r: Result<MrvGovernanceEvent, &'static str>)
        ensures
            match old(self).accept_governance_error(env) {
                Some(e) => r == Err::<MrvGovernanceEvent, &'static str>(e) && *final(self) == *old(self),
                None => {
                    &&& r matches Ok(MrvGovernanceEvent::Accepted { governance: g }) && g@ == old(self).pending_governance->0@
                    &&& final(self).governance == old(self).pending_governance
                    &&& final(self).pending_governance is None
                    &&& final(self).pending_governance_expires_at_round == 0
                },
            },
            // active governance is only ever replaced by another address, never removed
            old(self).governance is Some ==> final(self).governance is Some,
    {
        let expires = self.pending_governance_expires_at_round;
        match &self.pending_governance {
            None => {
                return Err("pending governance not set");
            },
            Some(p) => {
                if env.block_round > expires {
                    return Err("pending governance acceptance expired");
                }
                if !bytes_eq(&env.caller, p) {
                    return Err("caller not pending governance");
                }
            },
        }
        let event = match &self.pending_governance {
            Some(p) => MrvGovernanceEvent::Accepted { governance: copy_bytes(p) },
            None => MrvGovernanceEvent::Accepted { governance: Vec::new() },
        };
        self.governance = self.pending_governance.take();
        self.pending_governance_expires_at_round = 0;
        Ok(event)
    }

    /// The owner cancels a bootstrap-time pending governance, only while no
    /// governance has been accepted.
    fn revoke_governance(&mut self, env: &BlockchainEnv) -> (r: Result<MrvGovernanceEvent, &'static str>)
        ensures
            match old(self).revoke_governance_error(env) {
                Some(e) => r == Err::<MrvGovernanceEvent, &'static str>(e) && *final(self) == *old(self),
                None => {
                    &&& r matches Ok(MrvGovernanceEvent::Revoked { previous }) && previous@ == zero_address()
                    &&& final(self).governance is None
                    &&& final(self).pending_governance is None
                    &&& final(self).pending_governance_expires_at_round == 0
                },
            },
            // active governance cannot be revoked back to owner-only control
            old(self).governance is Some ==> r is Err && final(self).governance == old(self).governance,
    {
        if !bytes_eq(&env.caller, &env.owner) {
            return Err("caller not authorized");
        }
        if self.governance.is_some() {
            return Err("active governance cannot be revoked");
        }
        self.governance = None;
        self.pending_governance = None;
        self.pending_governance_expires_at_round = 0;
        Ok(MrvGovernanceEvent::Revoked { previous: new_zero_address() })
    }
}


/// What the virtual machine reports for a contract's pause check: whether
/// the pause authority (governance, or the owner while governance is unset)
/// is itself a smart contract, and the `getPaused` answer of the configured
/// governance-read contract.
pub struct PauseProbe {
    pub authority_is_smart_contract: bool,
    pub governance_paused: bool,
}

/// Without a governance-read address the pause authority must be a user
/// account (a contract authority could pause without the contract seeing
/// it); with one, the governance contract must not report a pause.
pub open spec fn not_paused_error(read_address_configured: bool, probe: PauseProbe) -> Option<&'static str> {
    if !read_address_configured {
        if probe.authority_is_smart_contract { Some("MRV_GOVERNANCE_READ_NOT_CONFIGURED") } else { None }
    } else {
        if probe.governance_paused { Some("MRV_GOVERNANCE_PAUSED") } else { None }
    }
}

pub fn require_not_paused(governance_read_address: &Option<Vec<u8>>, probe: &PauseProbe) -> (r: Result<(), &'static str>)
    ensures
        match not_paused_error(governance_read_address is Some, *probe) {
            Some(e) => r == Err::<(), &'static str>(e),
            None => r is Ok,
        },
{
    match governance_read_address {
        None => {
            if probe.authority_is_smart_contract {
                Err("MRV_GOVERNANCE_READ_NOT_CONFIGURED")
            } else {
                Ok(())
            }
        },
        Some(_) => {
            if probe.governance_paused {
                Err("MRV_GOVERNANCE_PAUSED")
            } else {
                Ok(())
            }
        },
    }
}

/// The storage-version upgrade that the MRV contracts run: the resolved
/// target is written when it differs from the stored value.
pub fn upgrade_storage_version(stored: &mut u32, current: u32, minimum_supported: u32) -> (r: Result<(), &'static str>)
    ensures
        match storage_version_upgrade_spec(*old(stored), current, minimum_supported) {
            Ok(v) => r is Ok && *final(stored) == v,
            Err(e) => r == Err::<(), &'static str>(e) && *final(stored) == *old(stored),
        },
{
    let target = resolve_storage_version_upgrade(*stored, current, minimum_supported);
    match target {
        Ok(v) => {
            if *stored != v {
                *stored = v;
            }
            Ok(())
        },
        Err(e) => Err(e),
    }
}

} // verus!
