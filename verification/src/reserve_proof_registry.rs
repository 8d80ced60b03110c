//! Registry of reserve-proof snapshots for the VM0042 and GSOC tracks.
//! Snapshot blocks are strictly increasing per token and per project.
use vstd::prelude::*;

use crate::amount::BigAmount;
use crate::bytes::{copy_bytes, is_zero_address, key2, make_key2, u64_be, zero_address};
use crate::env::BlockchainEnv;
use crate::mrv_common::{period_key, storage_version_upgrade_spec, MrvGovernanceModule, MrvGovernanceState};
use crate::table::Table;

verus! {

/// Reserve proof for the VM0042 track.
pub struct ReserveProof {
    pub token_id: Vec<u8>,
    pub total_supply_scaled: BigAmount,
    pub total_buffer_scaled: BigAmount,
    pub total_retired_scaled: BigAmount,
    pub net_circulating_scaled: BigAmount,
    pub merkle_root: Vec<u8>,
    pub snapshot_block: u64,
    pub anchored_at: u64,
}

/// Reserve proof for the GSOC track.
pub struct GsocReserveProof {
    pub project_id: Vec<u8>,
    pub total_issued: u64,
    pub total_retired: u64,
    pub net_active: u64,
    pub serial_count: u64,
    pub itmo_serial_hash: Vec<u8>,
    pub snapshot_block: u64,
    pub anchored_at: u64,
}

/// Payload of the `reserveProofAnchored` event.
#[derive(Debug, PartialEq, Eq)]
pub struct ReserveProofAnchoredEvent {
    pub token_id: Vec<u8>,
    pub merkle_root: Vec<u8>,
    pub snapshot_block: u64,
}

/// Payload of the `gsocReserveProofAnchored` event.
#[derive(Debug, PartialEq, Eq)]
pub struct GsocReserveProofAnchoredEvent {
    pub project_id: Vec<u8>,
    pub itmo_serial_hash: Vec<u8>,
    pub snapshot_block: u64,
}

/// The storage of the reserve-proof registry.
pub struct ReserveProofRegistryState {
    pub gov: MrvGovernanceState,
    /// Keyed by `(token_id, snapshot block)`.
    pub reserve_proofs: Table<ReserveProof>,
    /// Keyed by `(project_id, snapshot block)`.
    pub gsoc_reserve_proofs: Table<GsocReserveProof>,
    /// Latest anchored block per token; an absent entry reads as `0`.
    pub latest_reserve_proof_block: Table<u64>,
    /// Latest anchored block per project; an absent entry reads as `0`.
    pub latest_gsoc_proof_block: Table<u64>,
    pub storage_version: u32,
}

/// The latest block recorded in `latest` for `id` (0 when absent).
pub open spec fn latest_of(latest: Map<Seq<u8>, u64>, id: Seq<u8>) -> u64 {
    if latest.contains_key(id) { latest[id] } else { 0 }
}

impl ReserveProofRegistryState {
    /// Every table is well formed, and the latest block of each token or
    /// project points at an anchored proof.
    pub open spec fn wf(&self) -> bool {
        &&& self.reserve_proofs.wf()
        &&& self.gsoc_reserve_proofs.wf()
        &&& self.latest_reserve_proof_block.wf()
        &&& self.latest_gsoc_proof_block.wf()
        &&& forall|t: Seq<u8>| #[trigger] self.latest_reserve_proof_block@.contains_key(t)
            ==> self.reserve_proofs@.contains_key(key2(t, u64_be(self.latest_reserve_proof_block@[t])))
        &&& forall|p: Seq<u8>| #[trigger] self.latest_gsoc_proof_block@.contains_key(p)
            ==> self.gsoc_reserve_proofs@.contains_key(key2(p, u64_be(self.latest_gsoc_proof_block@[p])))
    }

    pub open spec fn anchor_reserve_proof_error(
        &self,
        env: &BlockchainEnv,
        token_id: Seq<u8>,
        total_supply_scaled: BigAmount,
        total_buffer_scaled: BigAmount,
        total_retired_scaled: BigAmount,
        merkle_root: Seq<u8>,
        snapshot_block: u64,
    ) -> Option<&'static str> {
        if self.gov.governance_or_owner_error(env.caller@, env.owner@) is Some {
            self.gov.governance_or_owner_error(env.caller@, env.owner@)
        } else if token_id.len() == 0 {
            Some("empty token_id")
        } else if merkle_root.len() == 0 {
            Some("empty merkle_root")
        } else if snapshot_block == 0 {
            Some("invalid snapshot_block")
        } else if snapshot_block <= latest_of(self.latest_reserve_proof_block@, token_id) {
            Some("SNAPSHOT_BLOCK_NOT_MONOTONIC: new block must be greater than current latest")
        } else if total_supply_scaled@ < total_buffer_scaled@ + total_retired_scaled@ {
            Some("INVALID_RESERVE_ARITHMETIC: supply < buffer + retired")
        } else {
            None
        }
    }

    pub open spec fn anchor_gsoc_reserve_proof_error(
        &self,
        env: &BlockchainEnv,
        project_id: Seq<u8>,
        total_issued: u64,
        total_retired: u64,
        itmo_serial_hash: Seq<u8>,
        snapshot_block: u64,
    ) -> Option<&'static str> {
        if self.gov.governance_or_owner_error(env.caller@, env.owner@) is Some {
            self.gov.governance_or_owner_error(env.caller@, env.owner@)
        } else if project_id.len() == 0 {
            Some("empty project_id")
        } else if itmo_serial_hash.len() == 0 {
            Some("empty itmo_serial_hash")
        } else if snapshot_block == 0 {
            Some("invalid snapshot_block")
        } else if snapshot_block <= latest_of(self.latest_gsoc_proof_block@, project_id) {
            Some("SNAPSHOT_BLOCK_NOT_MONOTONIC: new block must be greater than current latest")
        } else if total_issued < total_retired {
            Some("INVALID_RESERVE_ARITHMETIC: issued < retired")
        } else {
            None
        }
    }
}

/// The endpoints of the reserve-proof registry.
pub trait ReserveProofRegistry: Sized {
    spec fn valid(&self) -> bool;

    fn init(env: &BlockchainEnv, governance: Vec<u8>) -> (r: Result<Self, &'static str>)
        ensures
            r matches Ok(s) ==> s.valid();

    fn anchor_reserve_proof(
        &mut self,
        env: &BlockchainEnv,
        token_id: Vec<u8>,
        total_supply_scaled: BigAmount,
        total_buffer_scaled: BigAmount,
        total_retired_scaled: BigAmount,
        merkle_root: Vec<u8>,
        snapshot_block: u64,
    ) -> (r: Result<ReserveProofAnchoredEvent, &'static str>)
        requires
            old(self).valid(),
        ensures
            final(self).valid();

    fn anchor_gsoc_reserve_proof(
        &mut self,
        env: &BlockchainEnv,
        project_id: Vec<u8>,
        total_issued: u64,
        total_retired: u64,
        serial_count: u64,
        itmo_serial_hash: Vec<u8>,
        snapshot_block: u64,
    ) -> (r: Result<GsocReserveProofAnchoredEvent, &'static str>)
        requires
            old(self).valid(),
        ensures
            final(self).valid();

    fn get_reserve_proof(&self, token_id: &[u8], snapshot_block: u64) -> Option<&ReserveProof>
        requires
            self.valid();

    fn get_latest_reserve_proof(&self, token_id: &[u8]) -> Option<&ReserveProof>
        requires
            self.valid();

    fn get_gsoc_reserve_proof(&self, project_id: &[u8], snapshot_block: u64) -> Option<&GsocReserveProof>
        requires
            self.valid();

    fn get_latest_gsoc_reserve_proof(&self, project_id: &[u8]) -> Option<&GsocReserveProof>
        requires
            self.valid();

    fn upgrade(&mut self)
        requires
            old(self).valid(),
        ensures
            final(self).valid();
}

impl ReserveProofRegistry for ReserveProofRegistryState {
    open spec fn valid(&self) -> bool {
        self.wf()
    }

    fn init(env: &BlockchainEnv, governance: Vec<u8>) -> (r: Result<Self, &'static str>)
        ensures
            governance@ == zero_address() ==> r == Err::<Self, &'static str>("governance must not be zero"),
            governance@ != zero_address() ==> (r matches Ok(s) && {
                &&& s.wf()
                &&& s.gov.governance == Some(governance)
                &&& s.gov.pending_governance is None
                &&& s.reserve_proofs@ == Map::<Seq<u8>, ReserveProof>::empty()
                &&& s.gsoc_reserve_proofs@ == Map::<Seq<u8>, GsocReserveProof>::empty()
                &&& s.latest_reserve_proof_block@ == Map::<Seq<u8>, u64>::empty()
                &&& s.latest_gsoc_proof_block@ == Map::<Seq<u8>, u64>::empty()
                &&& s.storage_version == 1
            }),
    {
        if is_zero_address(&governance) {
            return Err("governance must not be zero");
        }
        Ok(ReserveProofRegistryState {
            gov: MrvGovernanceState::with_governance(governance),
            reserve_proofs: Table::new(),
            gsoc_reserve_proofs: Table::new(),
            latest_reserve_proof_block: Table::new(),
            latest_gsoc_proof_block: Table::new(),
            storage_version: 1,
        })
    }

    /// Anchors a VM0042 reserve proof for a token at a snapshot block that
    /// is strictly later than the token's latest one.
    fn anchor_reserve_proof(
        &mut self,
        env: &BlockchainEnv,
        token_id: Vec<u8>,
        total_supply_scaled: BigAmount,
        total_buffer_scaled: BigAmount,
        total_retired_scaled: BigAmount,
        merkle_root: Vec<u8>,
        snapshot_block: u64,
    ) -> (r: Result<ReserveProofAnchoredEvent, &'static str>)
        ensures
            match old(self).anchor_reserve_proof_error(
                env, token_id@, total_supply_scaled, total_buffer_scaled, total_retired_scaled, merkle_root@, snapshot_block) {
                Some(e) => r == Err::<ReserveProofAnchoredEvent, &'static str>(e) && *final(self) == *old(self),
                None => {
                    &&& r matches Ok(ev) && ev.token_id@ == token_id@ && ev.merkle_root@ == merkle_root@
                        && ev.snapshot_block == snapshot_block
                    &&& final(self).reserve_proofs@ == old(self).reserve_proofs@.insert(
                        key2(token_id@, u64_be(snapshot_block)),
                        ReserveProof {
                            token_id,
                            total_supply_scaled,
                            total_buffer_scaled,
                            total_retired_scaled,
                            net_circulating_scaled: final(self).reserve_proofs@[key2(token_id@, u64_be(snapshot_block))].net_circulating_scaled,
                            merkle_root,
                            snapshot_block,
                            anchored_at: env.block_timestamp,
                        },
                    )
                    &&& final(self).reserve_proofs@[key2(token_id@, u64_be(snapshot_block))].net_circulating_scaled@
                        == total_supply_scaled@ - total_buffer_scaled@ - total_retired_scaled@
                    &&& final(self).latest_reserve_proof_block@ == old(self).latest_reserve_proof_block@.insert(token_id@, snapshot_block)
                    &&& final(self).gsoc_reserve_proofs == old(self).gsoc_reserve_proofs
                    &&& final(self).latest_gsoc_proof_block == old(self).latest_gsoc_proof_block
                    &&& final(self).gov == old(self).gov
                    &&& final(self).storage_version == old(self).storage_version
                },
            },
            // the latest block of every token only ever grows
            forall|t: Seq<u8>| latest_of(old(self).latest_reserve_proof_block@, t)
                <= #[trigger] latest_of(final(self).latest_reserve_proof_block@, t),
    {
        if let Err(e) = self.gov.require_governance_or_owner(env) {
            return Err(e);
        }
        if token_id.len() == 0 {
            return Err("empty token_id");
        }
        if merkle_root.len() == 0 {
            return Err("empty merkle_root");
        }
        if snapshot_block == 0 {
            return Err("invalid snapshot_block");
        }
        let current_latest = match self.latest_reserve_proof_block.get(&token_id) {
            Some(b) => *b,
            None => 0,
        };
        if snapshot_block <= current_latest {
            return Err("SNAPSHOT_BLOCK_NOT_MONOTONIC: new block must be greater than current latest");
        }
        let backing = total_buffer_scaled.plus(&total_retired_scaled);
        if !backing.at_most(&total_supply_scaled) {
            return Err("INVALID_RESERVE_ARITHMETIC: supply < buffer + retired");
        }
        let net = total_supply_scaled.minus(&backing);
        let key = make_key2(&token_id, &period_key(snapshot_block));
        let latest_key = copy_bytes(&token_id);
        let event = ReserveProofAnchoredEvent {
            token_id: copy_bytes(&token_id),
            merkle_root: copy_bytes(&merkle_root),
            snapshot_block,
        };
        let proof = ReserveProof {
            token_id,
            total_supply_scaled,
            total_buffer_scaled,
            total_retired_scaled,
            net_circulating_scaled: net,
            merkle_root,
            snapshot_block,
            anchored_at: env.block_timestamp,
        };
        self.reserve_proofs.insert(key, proof);
        self.latest_reserve_proof_block.insert(latest_key, snapshot_block);
        Ok(event)
    }

    /// Anchors a GSOC reserve proof for a project at a snapshot block that is
    /// strictly later than the project's latest one.
    fn anchor_gsoc_reserve_proof(
        &mut self,
        env: &BlockchainEnv,
        project_id: Vec<u8>,
        total_issued: u64,
        total_retired: u64,
        serial_count: u64,
        itmo_serial_hash: Vec<u8>,
        snapshot_block: u64,
    ) -> (r: Result<GsocReserveProofAnchoredEvent, &'static str>)
        ensures
            match old(self).anchor_gsoc_reserve_proof_error(env, project_id@, total_issued, total_retired, itmo_serial_hash@, snapshot_block) {
                Some(e) => r == Err::<GsocReserveProofAnchoredEvent, &'static str>(e) && *final(self) == *old(self),
                None => {
                    &&& r matches Ok(ev) && ev.project_id@ == project_id@ && ev.itmo_serial_hash@ == itmo_serial_hash@
                        && ev.snapshot_block == snapshot_block
                    &&& final(self).gsoc_reserve_proofs@ == old(self).gsoc_reserve_proofs@.insert(
                        key2(project_id@, u64_be(snapshot_block)),
                        GsocReserveProof {
                            project_id,
                            total_issued,
                            total_retired,
                            net_active: (total_issued - total_retired) as u64,
                            serial_count,
                            itmo_serial_hash,
                            snapshot_block,
                            anchored_at: env.block_timestamp,
                        },
                    )
                    &&& final(self).latest_gsoc_proof_block@ == old(self).latest_gsoc_proof_block@.insert(project_id@, snapshot_block)
                    &&& final(self).reserve_proofs == old(self).reserve_proofs
                    &&& final(self).latest_reserve_proof_block == old(self).latest_reserve_proof_block
                    &&& final(self).gov == old(self).gov
                    &&& final(self).storage_version == old(self).storage_version
                },
            },
            forall|p: Seq<u8>| latest_of(old(self).latest_gsoc_proof_block@, p)
                <= #[trigger] latest_of(final(self).latest_gsoc_proof_block@, p),
    {
        if let Err(e) = self.gov.require_governance_or_owner(env) {
            return Err(e);
        }
        if project_id.len() == 0 {
            return Err("empty project_id");
        }
        if itmo_serial_hash.len() == 0 {
            return Err("empty itmo_serial_hash");
        }
        if snapshot_block == 0 {
            return Err("invalid snapshot_block");
        }
        let current_latest = match self.latest_gsoc_proof_block.get(&project_id) {
            Some(b) => *b,
            None => 0,
        };
        if snapshot_block <= current_latest {
            return Err("SNAPSHOT_BLOCK_NOT_MONOTONIC: new block must be greater than current latest");
        }
        if total_issued < total_retired {
            return Err("INVALID_RESERVE_ARITHMETIC: issued < retired");
        }
        let key = make_key2(&project_id, &period_key(snapshot_block));
        let latest_key = copy_bytes(&project_id);
        let event = GsocReserveProofAnchoredEvent {
            project_id: copy_bytes(&project_id),
            itmo_serial_hash: copy_bytes(&itmo_serial_hash),
            snapshot_block,
        };
        let proof = GsocReserveProof {
            project_id,
            total_issued,
            total_retired,
            net_active: total_issued - total_retired,
            serial_count,
            itmo_serial_hash,
            snapshot_block,
            anchored_at: env.block_timestamp,
        };
        self.gsoc_reserve_proofs.insert(key, proof);
        self.latest_gsoc_proof_block.insert(latest_key, snapshot_block);
        Ok(event)
    }

    fn get_reserve_proof(&self, token_id: &[u8], snapshot_block: u64) -> (r: Option<&ReserveProof>)
        ensures
            match r {
                Some(p) => self.reserve_proofs@.contains_key(key2(token_id@, u64_be(snapshot_block)))
                    && *p == self.reserve_proofs@[key2(token_id@, u64_be(snapshot_block))],
                None => !self.reserve_proofs@.contains_key(key2(token_id@, u64_be(snapshot_block))),
            },
    {
        self.reserve_proofs.get(&make_key2(token_id, &period_key(snapshot_block)))
    }

    /// The proof at the token's latest snapshot block, if any was anchored.
    fn get_latest_reserve_proof(&self, token_id: &[u8]) -> (r: Option<&ReserveProof>)
        ensures
            !self.latest_reserve_proof_block@.contains_key(token_id@) ==> r is None,
            self.latest_reserve_proof_block@.contains_key(token_id@) ==> (r matches Some(p)
                && *p == self.reserve_proofs@[key2(token_id@, u64_be(self.latest_reserve_proof_block@[token_id@]))]),
    {
        match self.latest_reserve_proof_block.get(token_id) {
            None => None,
            Some(block) => self.get_reserve_proof(token_id, *block),
        }
    }

    fn get_gsoc_reserve_proof(&self, project_id: &[u8], snapshot_block: u64) -> (r: Option<&GsocReserveProof>)
        ensures
            match r {
                Some(p) => self.gsoc_reserve_proofs@.contains_key(key2(project_id@, u64_be(snapshot_block)))
                    && *p == self.gsoc_reserve_proofs@[key2(project_id@, u64_be(snapshot_block))],
                None => !self.gsoc_reserve_proofs@.contains_key(key2(project_id@, u64_be(snapshot_block))),
            },
    {
        self.gsoc_reserve_proofs.get(&make_key2(project_id, &period_key(snapshot_block)))
    }

    /// The GSOC proof at the project's latest snapshot block, if any.
    fn get_latest_gsoc_reserve_proof(&self, project_id: &[u8]) -> (r: Option<&GsocReserveProof>)
        ensures
            !self.latest_gsoc_proof_block@.contains_key(project_id@) ==> r is None,
            self.latest_gsoc_proof_block@.contains_key(project_id@) ==> (r matches Some(p)
                && *p == self.gsoc_reserve_proofs@[key2(project_id@, u64_be(self.latest_gsoc_proof_block@[project_id@]))]),
    {
        match self.latest_gsoc_proof_block.get(project_id) {
            None => None,
            Some(block) => self.get_gsoc_reserve_proof(project_id, *block),
        }
    }

    /// Sets the storage version to 1 when it was never written.
    fn upgrade(&mut self)
        ensures
            final(self).storage_version == (if old(self).storage_version < 1 { 1 } else { old(self).storage_version }),
            final(self).reserve_proofs == old(self).reserve_proofs,
            final(self).gsoc_reserve_proofs == old(self).gsoc_reserve_proofs,
            final(self).latest_reserve_proof_block == old(self).latest_reserve_proof_block,
            final(self).latest_gsoc_proof_block == old(self).latest_gsoc_proof_block,
            final(self).gov == old(self).gov,
    {
        if self.storage_version < 1 {
            self.storage_version = 1;
        }
    }
}

/// Snapshot blocks are strictly monotonic per token: a proof at or before
/// the latest anchored block is refused.
pub proof fn lemma_snapshots_strictly_increase(
    s: ReserveProofRegistryState,
    env: BlockchainEnv,
    token_id: Seq<u8>,
    total_supply_scaled: BigAmount,
    total_buffer_scaled: BigAmount,
    total_retired_scaled: BigAmount,
    merkle_root: Seq<u8>,
    snapshot_block: u64,
)
    requires
        s.latest_reserve_proof_block@.contains_key(token_id),
        snapshot_block <= s.latest_reserve_proof_block@[token_id],
    ensures
        s.anchor_reserve_proof_error(&env, token_id, total_supply_scaled, total_buffer_scaled, total_retired_scaled, merkle_root, snapshot_block) is Some,
{
}

} // verus!
