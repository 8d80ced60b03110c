//! Multi-signature MRV governance with a timelock: emergency pause,
//! VVB accreditation, Green Badge issuance and GSOC verifier admission.
use vstd::prelude::*;

use crate::approvals::ApprovalBook;
use crate::bytes::{bytes_eq, copy_bytes, is_zero_address, new_zero_address, u64_be, zero_address};
use crate::env::BlockchainEnv;
use crate::mrv_common::{period_key, GsocVerifierEntry, VerifierAccreditation};
use crate::table::Table;

verus! {

pub const PROPOSAL_TYPE_PAUSE: u8 = 1;

pub const PROPOSAL_TYPE_VERIFIER_ACCREDITATION: u8 = 2;

/// Green Badge issuance: the target is the farmer, `role` holds the badge
/// metadata hash.
pub const PROPOSAL_TYPE_BADGE_ISSUANCE: u8 = 3;

pub const MIN_TIMELOCK_SECONDS: u64 = 3600;

/// How long an approved proposal stays executable after its `eta`.
pub const EXECUTION_WINDOW_SECONDS: u64 = 2_592_000;

/// Multi-sig governance proposal supporting pause, verifier accreditation,
/// and Green Badge issuance actions.
pub struct GovernanceProposal {
    pub proposal_id: Vec<u8>,
    pub proposal_type: u8,
    pub target: Vec<u8>,
    pub bool_value: bool,
    pub role: Vec<u8>,
    pub eta: u64,
    pub executed: bool,
    pub executed_at_timestamp: u64,
}

/// GSOC verifier proposal record.
pub struct GsocVerifierProposal {
    pub verifier_did: Vec<u8>,
    pub credentials_cid: Vec<u8>,
    pub jurisdiction: Vec<u8>,
    pub eta: u64,
    pub executed: bool,
}

/// The storage of the governance contract.
pub struct GovernanceState {
    pub signers: Table<()>,
    pub approval_threshold: u32,
    pub timelock_seconds: u64,
    pub paused: bool,
    pub proposals: Table<GovernanceProposal>,
    pub approvals: ApprovalBook,
    pub verifier_accreditations: Table<VerifierAccreditation>,
    /// Badge metadata hash per farmer.
    pub badge_issuances: Table<Vec<u8>>,
    pub gsoc_verifier_registry: Table<GsocVerifierEntry>,
    /// GSOC proposals by the 8-byte big-endian proposal id.
    pub gsoc_verifier_proposals: Table<GsocVerifierProposal>,
    pub gsoc_verifier_approvals: ApprovalBook,
    pub next_gsoc_verifier_proposal_id: u64,
    pub storage_version: u32,
}

pub open spec fn saturating_add(a: u64, b: u64) -> u64 {
    if a + b > u64::MAX { u64::MAX } else { (a + b) as u64 }
}

/// The addresses of a list, as a set.
pub open spec fn address_set(list: Seq<Vec<u8>>) -> Set<Seq<u8>> {
    Set::new(|a: Seq<u8>| exists|j: int| 0 <= j < list.len() && #[trigger] list[j]@ == a)
}

impl GovernanceProposal {
    /// The proposal holds exactly these field contents.
    pub open spec fn describes(
        &self,
        proposal_id: Seq<u8>,
        proposal_type: u8,
        target: Seq<u8>,
        bool_value: bool,
        role: Seq<u8>,
        eta: u64,
        executed: bool,
        executed_at_timestamp: u64,
    ) -> bool {
        &&& self.proposal_id@ == proposal_id
        &&& self.proposal_type == proposal_type
        &&& self.target@ == target
        &&& self.bool_value == bool_value
        &&& self.role@ == role
        &&& self.eta == eta
        &&& self.executed == executed
        &&& self.executed_at_timestamp == executed_at_timestamp
    }
}

impl GovernanceState {
    /// Tables are well formed; the threshold is positive and never exceeds
    /// the signer count; the timelock is at least an hour; every proposal
    /// has a known type.
    pub open spec fn wf(&self) -> bool {
        &&& self.signers.wf()
        &&& self.proposals.wf()
        &&& self.approvals.wf()
        &&& self.verifier_accreditations.wf()
        &&& self.badge_issuances.wf()
        &&& self.gsoc_verifier_registry.wf()
        &&& self.gsoc_verifier_proposals.wf()
        &&& self.gsoc_verifier_approvals.wf()
        &&& 0 < self.approval_threshold <= self.signers@.len()
        &&& self.timelock_seconds >= MIN_TIMELOCK_SECONDS
        &&& forall|p: Seq<u8>| #[trigger] self.proposals@.contains_key(p) ==> {
            let t = self.proposals@[p].proposal_type;
            t == PROPOSAL_TYPE_PAUSE || t == PROPOSAL_TYPE_VERIFIER_ACCREDITATION || t == PROPOSAL_TYPE_BADGE_ISSUANCE
        }
    }

    pub open spec fn signer_error(&self, env: &BlockchainEnv) -> Option<&'static str> {
        if self.signers@.contains_key(env.caller@) { None } else { Some("caller not signer") }
    }

    pub open spec fn owner_error(env: &BlockchainEnv) -> Option<&'static str> {
        if env.caller@ == env.owner@ { None } else { Some("Endpoint can only be called by owner") }
    }

    pub open spec fn eta_of(&self, env: &BlockchainEnv) -> u64 {
        saturating_add(env.block_timestamp, self.timelock_seconds)
    }

    /// Why creating a proposal fails, if it does, after its own field rules.
    pub open spec fn propose_error(&self, env: &BlockchainEnv, proposal_id: Seq<u8>, fields: Option<&'static str>) -> Option<&'static str> {
        if self.signer_error(env) is Some {
            self.signer_error(env)
        } else if proposal_id.len() == 0 {
            Some("empty proposal id")
        } else if fields is Some {
            fields
        } else if self.proposals@.contains_key(proposal_id) {
            Some("proposal already exists")
        } else {
            None
        }
    }

    pub open spec fn approve_error(&self, env: &BlockchainEnv, proposal_id: Seq<u8>) -> Option<&'static str> {
        if self.signer_error(env) is Some {
            self.signer_error(env)
        } else if !self.proposals@.contains_key(proposal_id) {
            Some("missing proposal")
        } else if self.approvals.of(proposal_id).contains(env.caller@) {
            Some("ALREADY_APPROVED")
        } else if self.proposals@[proposal_id].executed {
            Some("proposal already executed")
        } else {
            None
        }
    }

    pub open spec fn execute_error(&self, env: &BlockchainEnv, proposal_id: Seq<u8>) -> Option<&'static str> {
        let p = self.proposals@[proposal_id];
        if self.signer_error(env) is Some {
            self.signer_error(env)
        } else if !self.proposals@.contains_key(proposal_id) {
            Some("missing proposal")
        } else if p.executed {
            Some("proposal already executed")
        } else if self.approvals.count(proposal_id) < self.approval_threshold {
            Some("insufficient approvals")
        } else if env.block_timestamp < p.eta {
            Some("timelock not elapsed")
        } else if env.block_timestamp > saturating_add(p.eta, EXECUTION_WINDOW_SECONDS) {
            Some("PROPOSAL_EXPIRED: must be executed within 30 days of timelock expiry")
        } else if p.proposal_type == PROPOSAL_TYPE_BADGE_ISSUANCE && self.badge_issuances@.contains_key(p.target@) {
            Some("BADGE_ALREADY_ISSUED: farmer already has a badge — revoke first")
        } else {
            None
        }
    }

    pub open spec fn approve_gsoc_error(&self, env: &BlockchainEnv, proposal_id: u64) -> Option<&'static str> {
        let k = u64_be(proposal_id);
        if self.signer_error(env) is Some {
            self.signer_error(env)
        } else if !self.gsoc_verifier_proposals@.contains_key(k) {
            Some("proposal not found")
        } else if self.gsoc_verifier_proposals@[k].executed {
            Some("proposal already executed")
        } else if self.gsoc_verifier_approvals.of(k).contains(env.caller@) {
            Some("ALREADY_APPROVED")
        } else {
            None
        }
    }

    pub open spec fn execute_gsoc_error(&self, env: &BlockchainEnv, proposal_id: u64) -> Option<&'static str> {
        let k = u64_be(proposal_id);
        let p = self.gsoc_verifier_proposals@[k];
        if self.signer_error(env) is Some {
            self.signer_error(env)
        } else if !self.gsoc_verifier_proposals@.contains_key(k) {
            Some("proposal not found")
        } else if p.executed {
            Some("proposal already executed")
        } else if env.block_timestamp < p.eta {
            Some("timelock not expired")
        } else if env.block_timestamp > saturating_add(p.eta, EXECUTION_WINDOW_SECONDS) {
            Some("GSOC_PROPOSAL_EXPIRED: must be executed within 30 days of timelock expiry")
        } else if self.gsoc_verifier_approvals.count(k) < self.approval_threshold {
            Some("INSUFFICIENT_APPROVALS: need at least threshold approvals for GSOC verifier proposals")
        } else {
            None
        }
    }

    /// Everything but the proposals, their approvals and what executing
    /// them writes is unchanged.
    pub open spec fn same_setup(&self, o: &Self) -> bool {
        &&& self.signers == o.signers
        &&& self.approval_threshold == o.approval_threshold
        &&& self.timelock_seconds == o.timelock_seconds
        &&& self.storage_version == o.storage_version
        &&& self.gsoc_verifier_registry == o.gsoc_verifier_registry
        &&& self.gsoc_verifier_proposals == o.gsoc_verifier_proposals
        &&& self.gsoc_verifier_approvals == o.gsoc_verifier_approvals
        &&& self.next_gsoc_verifier_proposal_id == o.next_gsoc_verifier_proposal_id
    }
}

/// The events of the MRV governance.
#[derive(Debug, PartialEq, Eq)]
pub enum GovernanceEvent {
    /// `signerAdded`.
    SignerAdded { signer: Vec<u8> },
    /// `signerRemoved`.
    SignerRemoved { signer: Vec<u8> },
    /// `thresholdChanged`.
    ThresholdChanged { approval_threshold: u32 },
    /// `timelockChanged`.
    TimelockChanged { timelock_seconds: u64 },
    /// `proposalCreated`.
    ProposalCreated { proposal_id: Vec<u8>, proposal_type: u8 },
    /// `proposalApproved`: the approver and the proposal's approval count.
    ProposalApproved { proposal_id: Vec<u8>, signer: Vec<u8>, approval_count: u32 },
    /// `proposalExecuted`.
    ProposalExecuted { proposal_id: Vec<u8> },
    /// `pauseChanged`.
    PauseChanged { paused: bool },
    /// `badgeIssued`.
    BadgeIssued { farmer: Vec<u8>, badge_metadata_hash: Vec<u8> },
    /// `verifierAccreditationChanged`.
    VerifierAccreditationChanged { verifier: Vec<u8>, approved: bool, role: Vec<u8> },
    /// `gsocVerifierProposed`.
    GsocVerifierProposed { verifier_did: Vec<u8>, jurisdiction: Vec<u8> },
    /// `gsocVerifierAdded`.
    GsocVerifierAdded { verifier_did: Vec<u8> },
    /// `gsocVerifierRemoved`.
    GsocVerifierRemoved { verifier_did: Vec<u8> },
}

/// `ev` is the `proposalCreated` event of `proposal_id` of type `proposal_type`.
pub open spec fn created_event(ev: GovernanceEvent, proposal_id: Seq<u8>, proposal_type: u8) -> bool {
    ev matches GovernanceEvent::ProposalCreated { proposal_id: i, proposal_type: t } && i@ == proposal_id && t == proposal_type
}

/// The event of the effect of executing `p`: the pause change, the
/// accreditation change or the badge issuance.
pub open spec fn effect_event(ev: GovernanceEvent, p: GovernanceProposal) -> bool {
    if p.proposal_type == PROPOSAL_TYPE_PAUSE {
        ev matches GovernanceEvent::PauseChanged { paused } && paused == p.bool_value
    } else if p.proposal_type == PROPOSAL_TYPE_VERIFIER_ACCREDITATION {
        ev matches GovernanceEvent::VerifierAccreditationChanged { verifier, approved, role } && verifier@ == p.target@
            && approved == p.bool_value && role@ == p.role@
    } else {
        ev matches GovernanceEvent::BadgeIssued { farmer, badge_metadata_hash } && farmer@ == p.target@
            && badge_metadata_hash@ == p.role@
    }
}

/// The endpoints of the MRV governance contract.
pub trait MrvGovernance: Sized {
    spec fn valid(&self) -> bool;

    fn init(env: &BlockchainEnv, approval_threshold: u32, timelock_seconds: u64, initial_signers: Vec<Vec<u8>>) -> (r: Result<
        Self,
        &'static str,
    >)
        ensures
            r matches Ok(s) ==> s.valid();

    fn add_signer(&mut self, env: &BlockchainEnv, signer: Vec<u8>) -> (r: Result<GovernanceEvent, &'static str>)
        requires old(self).valid(), ensures final(self).valid();

    fn remove_signer(&mut self, env: &BlockchainEnv, signer: Vec<u8>) -> (r: Result<GovernanceEvent, &'static str>)
        requires old(self).valid(), ensures final(self).valid();

    fn set_approval_threshold(&mut self, env: &BlockchainEnv, approval_threshold: u32) -> (r: Result<GovernanceEvent, &'static str>)
        requires old(self).valid(), ensures final(self).valid();

    fn set_timelock_seconds(&mut self, env: &BlockchainEnv, timelock_seconds: u64) -> (r: Result<GovernanceEvent, &'static str>)
        requires old(self).valid(), ensures final(self).valid();

    fn propose_emergency_pause(&mut self, env: &BlockchainEnv, proposal_id: Vec<u8>, pause: bool) -> (r: Result<GovernanceEvent, &'static str>)
        requires old(self).valid(), ensures final(self).valid();

    fn propose_verifier_accreditation(
        &mut self,
        env: &BlockchainEnv,
        proposal_id: Vec<u8>,
        verifier: Vec<u8>,
        approved: bool,
        role: Vec<u8>,
    ) -> (r: Result<GovernanceEvent, &'static str>)
        requires old(self).valid(), ensures final(self).valid();

    fn propose_badge_issuance(
        &mut self,
        env: &BlockchainEnv,
        proposal_id: Vec<u8>,
        farmer: Vec<u8>,
        badge_metadata_hash: Vec<u8>,
    ) -> (r: Result<GovernanceEvent, &'static str>)
        requires old(self).valid(), ensures final(self).valid();

    fn approve_proposal(&mut self, env: &BlockchainEnv, proposal_id: Vec<u8>) -> (r: Result<GovernanceEvent, &'static str>)
        requires old(self).valid(), ensures final(self).valid();

    fn execute_proposal(&mut self, env: &BlockchainEnv, proposal_id: Vec<u8>) -> (r: Result<Vec<GovernanceEvent>, &'static str>)
        requires old(self).valid(), ensures final(self).valid();

    fn propose_gsoc_verifier(
        &mut self,
        env: &BlockchainEnv,
        verifier_did: Vec<u8>,
        credentials_cid: Vec<u8>,
        jurisdiction: Vec<u8>,
    ) -> (r: Result<GovernanceEvent, &'static str>)
        requires old(self).valid(), ensures final(self).valid();

    fn approve_gsoc_verifier_proposal(&mut self, env: &BlockchainEnv, proposal_id: u64) -> (r: Result<(), &'static str>)
        requires old(self).valid(), ensures final(self).valid();

    fn execute_gsoc_verifier_proposal(&mut self, env: &BlockchainEnv, proposal_id: u64) -> (r: Result<GovernanceEvent, &'static str>)
        requires old(self).valid(), ensures final(self).valid();

    fn remove_gsoc_verifier(&mut self, env: &BlockchainEnv, verifier_did: Vec<u8>) -> (r: Result<GovernanceEvent, &'static str>)
        requires old(self).valid(), ensures final(self).valid();

    fn upgrade(&mut self)
        requires old(self).valid(), ensures final(self).valid();
}

impl MrvGovernance for GovernanceState {
    open spec fn valid(&self) -> bool {
        self.wf()
    }

    /// Installs the distinct initial signers, the threshold and the timelock.
    fn init(env: &BlockchainEnv, approval_threshold: u32, timelock_seconds: u64, initial_signers: Vec<Vec<u8>>) -> (r: Result<
        Self,
        &'static str,
    >)
        ensures
            approval_threshold == 0 ==> r == Err::<Self, &'static str>("invalid approval threshold"),
            approval_threshold > 0 && timelock_seconds < MIN_TIMELOCK_SECONDS ==> r == Err::<Self, &'static str>(
                "TIMELOCK_TOO_LOW: must be at least 1 hour (3600 seconds)",
            ),
            approval_threshold > 0 && timelock_seconds >= MIN_TIMELOCK_SECONDS ==> {
                if exists|j: int| 0 <= j < initial_signers@.len() && #[trigger] initial_signers@[j]@ == zero_address() {
                    r == Err::<Self, &'static str>("signer must not be zero")
                } else if address_set(initial_signers@).len() < approval_threshold {
                    r == Err::<Self, &'static str>("threshold exceeds signer count")
                } else {
                    r matches Ok(s) && {
                        &&& s.wf()
                        &&& s.signers@.dom() == address_set(initial_signers@)
                        &&& s.approval_threshold == approval_threshold
                        &&& s.timelock_seconds == timelock_seconds
                        &&& !s.paused
                        &&& s.proposals@ == Map::<Seq<u8>, GovernanceProposal>::empty()
                        &&& s.verifier_accreditations@ == Map::<Seq<u8>, VerifierAccreditation>::empty()
                        &&& s.badge_issuances@ == Map::<Seq<u8>, Vec<u8>>::empty()
                        &&& s.gsoc_verifier_registry@ == Map::<Seq<u8>, GsocVerifierEntry>::empty()
                        &&& s.gsoc_verifier_proposals@ == Map::<Seq<u8>, GsocVerifierProposal>::empty()
                        &&& s.next_gsoc_verifier_proposal_id == 1
                        &&& s.storage_version == 1
                    }
                }
            },
    {
        if approval_threshold == 0 {
            return Err("invalid approval threshold");
        }
        if timelock_seconds < MIN_TIMELOCK_SECONDS {
            return Err("TIMELOCK_TOO_LOW: must be at least 1 hour (3600 seconds)");
        }
        let mut signers: Table<()> = Table::new();
        let mut i: usize = 0;
        while i < initial_signers.len()
            invariant
                approval_threshold > 0,
                timelock_seconds >= MIN_TIMELOCK_SECONDS,
                i <= initial_signers@.len(),
                signers.wf(),
                signers@.dom() =~= Set::new(|a: Seq<u8>| exists|j: int| 0 <= j < i && #[trigger] initial_signers@[j]@ == a),
                forall|j: int| 0 <= j < i ==> #[trigger] initial_signers@[j]@ != zero_address(),
            decreases initial_signers@.len() - i,
        {
            let signer = &initial_signers[i];
            if is_zero_address(signer) {
                return Err("signer must not be zero");
            }
            let ghost before = signers@.dom();
            if !signers.contains_key(signer) {
                signers.insert(copy_bytes(signer), ());
            }
            i = i + 1;
            assert(signers@.dom() =~= Set::new(|a: Seq<u8>| exists|j: int| 0 <= j < i && #[trigger] initial_signers@[j]@ == a)) by {
                assert forall|a: Seq<u8>| signers@.dom().contains(a) implies exists|j: int|
                    0 <= j < i && #[trigger] initial_signers@[j]@ == a by {
                    if a != initial_signers@[i - 1]@ {
                        assert(before.contains(a));
                    }
                }
            }
        }
        assert(signers@.dom() =~= address_set(initial_signers@));
        if signers.len() < approval_threshold as usize {
            return Err("threshold exceeds signer count");
        }
        Ok(GovernanceState {
            signers,
            approval_threshold,
            timelock_seconds,
            paused: false,
            proposals: Table::new(),
            approvals: ApprovalBook::new(),
            verifier_accreditations: Table::new(),
            badge_issuances: Table::new(),
            gsoc_verifier_registry: Table::new(),
            gsoc_verifier_proposals: Table::new(),
            gsoc_verifier_approvals: ApprovalBook::new(),
            next_gsoc_verifier_proposal_id: 1,
            storage_version: 1,
        })
    }

    fn add_signer(&mut self, env: &BlockchainEnv, signer: Vec<u8>) -> (r: Result<GovernanceEvent, &'static str>)
        ensures
            Self::owner_error(env) is Some ==> r == Err::<GovernanceEvent, &'static str>("Endpoint can only be called by owner") && *final(self) == *old(self),
            Self::owner_error(env) is None && signer@ == zero_address() ==>
                r == Err::<GovernanceEvent, &'static str>("signer must not be zero") && *final(self) == *old(self),
            Self::owner_error(env) is None && signer@ != zero_address() ==> {
                &&& r matches Ok(GovernanceEvent::SignerAdded { signer: g }) && g@ == signer@
                &&& final(self).signers@ == old(self).signers@.insert(signer@, ())
                &&& *final(self) == (GovernanceState { signers: final(self).signers, ..*old(self) })
            },
    {
        if !bytes_eq(&env.caller, &env.owner) {
            return Err("Endpoint can only be called by owner");
        }
        if is_zero_address(&signer) {
            return Err("signer must not be zero");
        }
        let ghost before = self.signers@;
        let event = GovernanceEvent::SignerAdded { signer: copy_bytes(&signer) };
        self.signers.insert(signer, ());
        proof {
            old(self).signers.lemma_finite();
            self.signers.lemma_finite();
            assert(before.dom().subset_of(self.signers@.dom()));
            vstd::set_lib::lemma_len_subset(before.dom(), self.signers@.dom());
        }
        Ok(event)
    }

    /// Removes a signer, never below the approval threshold.
    fn remove_signer(&mut self, env: &BlockchainEnv, signer: Vec<u8>) -> (r: Result<GovernanceEvent, &'static str>)
        ensures
            Self::owner_error(env) is Some ==> r == Err::<GovernanceEvent, &'static str>("Endpoint can only be called by owner") && *final(self) == *old(self),
            Self::owner_error(env) is None && !old(self).signers@.contains_key(signer@) ==>
                r == Err::<GovernanceEvent, &'static str>("not a signer") && *final(self) == *old(self),
            Self::owner_error(env) is None && old(self).signers@.contains_key(signer@) && old(self).signers@.len() - 1 < old(self).approval_threshold ==>
                r == Err::<GovernanceEvent, &'static str>("SIGNERS_BELOW_THRESHOLD: cannot remove signer below approval threshold") && *final(self) == *old(self),
            Self::owner_error(env) is None && old(self).signers@.contains_key(signer@) && old(self).signers@.len() - 1 >= old(self).approval_threshold ==> {
                &&& r matches Ok(GovernanceEvent::SignerRemoved { signer: g }) && g@ == signer@
                &&& final(self).signers@ == old(self).signers@.remove(signer@)
                &&& *final(self) == (GovernanceState { signers: final(self).signers, ..*old(self) })
            },
    {
        if !bytes_eq(&env.caller, &env.owner) {
            return Err("Endpoint can only be called by owner");
        }
        if !self.signers.contains_key(&signer) {
            return Err("not a signer");
        }
        if self.signers.len() - 1 < self.approval_threshold as usize {
            return Err("SIGNERS_BELOW_THRESHOLD: cannot remove signer below approval threshold");
        }
        proof {
            self.signers.lemma_finite();
        }
        self.signers.remove(&signer);
        Ok(GovernanceEvent::SignerRemoved { signer })
    }

    fn set_approval_threshold(&mut self, env: &BlockchainEnv, approval_threshold: u32) -> (r: Result<GovernanceEvent, &'static str>)
        ensures
            Self::owner_error(env) is Some ==> r == Err::<GovernanceEvent, &'static str>("Endpoint can only be called by owner") && *final(self) == *old(self),
            Self::owner_error(env) is None && approval_threshold == 0 ==>
                r == Err::<GovernanceEvent, &'static str>("invalid approval threshold") && *final(self) == *old(self),
            Self::owner_error(env) is None && approval_threshold > 0 && old(self).signers@.len() < approval_threshold ==>
                r == Err::<GovernanceEvent, &'static str>("threshold exceeds signer count") && *final(self) == *old(self),
            Self::owner_error(env) is None && approval_threshold > 0 && old(self).signers@.len() >= approval_threshold ==>
                r == Ok::<GovernanceEvent, &'static str>(GovernanceEvent::ThresholdChanged { approval_threshold })
                    && *final(self) == (GovernanceState { approval_threshold, ..*old(self) }),
    {
        if !bytes_eq(&env.caller, &env.owner) {
            return Err("Endpoint can only be called by owner");
        }
        if approval_threshold == 0 {
            return Err("invalid approval threshold");
        }
        if self.signers.len() < approval_threshold as usize {
            return Err("threshold exceeds signer count");
        }
        self.approval_threshold = approval_threshold;
        Ok(GovernanceEvent::ThresholdChanged { approval_threshold })
    }

    fn set_timelock_seconds(&mut self, env: &BlockchainEnv, timelock_seconds: u64) -> (r: Result<GovernanceEvent, &'static str>)
        ensures
            Self::owner_error(env) is Some ==> r == Err::<GovernanceEvent, &'static str>("Endpoint can only be called by owner") && *final(self) == *old(self),
            Self::owner_error(env) is None && timelock_seconds < MIN_TIMELOCK_SECONDS ==>
                r == Err::<GovernanceEvent, &'static str>("TIMELOCK_TOO_SHORT: minimum 3600 seconds (1 hour)") && *final(self) == *old(self),
            Self::owner_error(env) is None && timelock_seconds >= MIN_TIMELOCK_SECONDS ==>
                r == Ok::<GovernanceEvent, &'static str>(GovernanceEvent::TimelockChanged { timelock_seconds })
                    && *final(self) == (GovernanceState { timelock_seconds, ..*old(self) }),
    {
        if !bytes_eq(&env.caller, &env.owner) {
            return Err("Endpoint can only be called by owner");
        }
        if timelock_seconds < MIN_TIMELOCK_SECONDS {
            return Err("TIMELOCK_TOO_SHORT: minimum 3600 seconds (1 hour)");
        }
        self.timelock_seconds = timelock_seconds;
        Ok(GovernanceEvent::TimelockChanged { timelock_seconds })
    }

    /// A signer proposes to pause or unpause; it takes effect after the
    /// timelock and the approvals.
    fn propose_emergency_pause(&mut self, env: &BlockchainEnv, proposal_id: Vec<u8>, pause: bool) -> (r: Result<GovernanceEvent, &'static str>)
        ensures
            match old(self).propose_error(env, proposal_id@, None) {
                Some(e) => r == Err::<GovernanceEvent, &'static str>(e) && *final(self) == *old(self),
                None => {
                    &&& r matches Ok(ev) && created_event(ev, proposal_id@, PROPOSAL_TYPE_PAUSE)
                    &&& final(self).proposals@ == old(self).proposals@.insert(proposal_id@, final(self).proposals@[proposal_id@])
                    &&& final(self).proposals@[proposal_id@].describes(proposal_id@, PROPOSAL_TYPE_PAUSE, zero_address(), pause,
                        Seq::empty(), old(self).eta_of(env), false, 0)
                    &&& *final(self) == (GovernanceState { proposals: final(self).proposals, ..*old(self) })
                },
            },
    {
        if !self.signers.contains_key(&env.caller) {
            return Err("caller not signer");
        }
        if proposal_id.len() == 0 {
            return Err("empty proposal id");
        }
        if self.proposals.contains_key(&proposal_id) {
            return Err("proposal already exists");
        }
        let proposal = GovernanceProposal {
            proposal_id: copy_bytes(&proposal_id),
            proposal_type: PROPOSAL_TYPE_PAUSE,
            target: new_zero_address(),
            bool_value: pause,
            role: Vec::new(),
            eta: env.block_timestamp.saturating_add(self.timelock_seconds),
            executed: false,
            executed_at_timestamp: 0,
        };
        let event = GovernanceEvent::ProposalCreated { proposal_id: copy_bytes(&proposal_id), proposal_type: PROPOSAL_TYPE_PAUSE };
        self.insert_proposal(proposal_id, proposal);
        Ok(event)
    }

    /// A signer proposes to grant or withdraw a verifier's accreditation.
    fn propose_verifier_accreditation(
        &mut self,
        env: &BlockchainEnv,
        proposal_id: Vec<u8>,
        verifier: Vec<u8>,
        approved: bool,
        role: Vec<u8>,
    ) -> (r: Result<GovernanceEvent, &'static str>)
        ensures
            ({
                let fields = if verifier@ == zero_address() {
                    Some("verifier must not be zero")
                } else if role@.len() == 0 {
                    Some("empty verifier role")
                } else {
                    None
                };
                match old(self).propose_error(env, proposal_id@, fields) {
                    Some(e) => r == Err::<GovernanceEvent, &'static str>(e) && *final(self) == *old(self),
                    None => {
                        &&& r matches Ok(ev) && created_event(ev, proposal_id@, PROPOSAL_TYPE_VERIFIER_ACCREDITATION)
                        &&& final(self).proposals@ == old(self).proposals@.insert(proposal_id@, final(self).proposals@[proposal_id@])
                        &&& final(self).proposals@[proposal_id@].describes(proposal_id@, PROPOSAL_TYPE_VERIFIER_ACCREDITATION,
                            verifier@, approved, role@, old(self).eta_of(env), false, 0)
                        &&& *final(self) == (GovernanceState { proposals: final(self).proposals, ..*old(self) })
                    },
                }
            }),
    {
        if !self.signers.contains_key(&env.caller) {
            return Err("caller not signer");
        }
        if proposal_id.len() == 0 {
            return Err("empty proposal id");
        }
        if is_zero_address(&verifier) {
            return Err("verifier must not be zero");
        }
        if role.len() == 0 {
            return Err("empty verifier role");
        }
        if self.proposals.contains_key(&proposal_id) {
            return Err("proposal already exists");
        }
        let proposal = GovernanceProposal {
            proposal_id: copy_bytes(&proposal_id),
            proposal_type: PROPOSAL_TYPE_VERIFIER_ACCREDITATION,
            target: verifier,
            bool_value: approved,
            role,
            eta: env.block_timestamp.saturating_add(self.timelock_seconds),
            executed: false,
            executed_at_timestamp: 0,
        };
        let event = GovernanceEvent::ProposalCreated { proposal_id: copy_bytes(&proposal_id), proposal_type: PROPOSAL_TYPE_VERIFIER_ACCREDITATION };
        self.insert_proposal(proposal_id, proposal);
        Ok(event)
    }

    /// A signer proposes a Green Badge for a farmer.
    fn propose_badge_issuance(
        &mut self,
        env: &BlockchainEnv,
        proposal_id: Vec<u8>,
        farmer: Vec<u8>,
        badge_metadata_hash: Vec<u8>,
    ) -> (r: Result<GovernanceEvent, &'static str>)
        ensures
            ({
                let fields = if farmer@ == zero_address() {
                    Some("farmer address must not be zero")
                } else if badge_metadata_hash@.len() == 0 {
                    Some("empty badge metadata hash")
                } else {
                    None
                };
                match old(self).propose_error(env, proposal_id@, fields) {
                    Some(e) => r == Err::<GovernanceEvent, &'static str>(e) && *final(self) == *old(self),
                    None => {
                        &&& r matches Ok(ev) && created_event(ev, proposal_id@, PROPOSAL_TYPE_BADGE_ISSUANCE)
                        &&& final(self).proposals@ == old(self).proposals@.insert(proposal_id@, final(self).proposals@[proposal_id@])
                        &&& final(self).proposals@[proposal_id@].describes(proposal_id@, PROPOSAL_TYPE_BADGE_ISSUANCE, farmer@,
                            true, badge_metadata_hash@, old(self).eta_of(env), false, 0)
                        &&& *final(self) == (GovernanceState { proposals: final(self).proposals, ..*old(self) })
                    },
                }
            }),
    {
        if !self.signers.contains_key(&env.caller) {
            return Err("caller not signer");
        }
        if proposal_id.len() == 0 {
            return Err("empty proposal id");
        }
        if is_zero_address(&farmer) {
            return Err("farmer address must not be zero");
        }
        if badge_metadata_hash.len() == 0 {
            return Err("empty badge metadata hash");
        }
        if self.proposals.contains_key(&proposal_id) {
            return Err("proposal already exists");
        }
        let proposal = GovernanceProposal {
            proposal_id: copy_bytes(&proposal_id),
            proposal_type: PROPOSAL_TYPE_BADGE_ISSUANCE,
            target: farmer,
            bool_value: true,
            role: badge_metadata_hash,
            eta: env.block_timestamp.saturating_add(self.timelock_seconds),
            executed: false,
            executed_at_timestamp: 0,
        };
        let event = GovernanceEvent::ProposalCreated { proposal_id: copy_bytes(&proposal_id), proposal_type: PROPOSAL_TYPE_BADGE_ISSUANCE };
        self.insert_proposal(proposal_id, proposal);
        Ok(event)
    }

    /// Records a signer's approval of a pending proposal, once.
    fn approve_proposal(&mut self, env: &BlockchainEnv, proposal_id: Vec<u8>) -> (r: Result<GovernanceEvent, &'static str>)
        ensures
            match old(self).approve_error(env, proposal_id@) {
                Some(e) => r == Err::<GovernanceEvent, &'static str>(e) && *final(self) == *old(self),
                None => {
                    &&& r matches Ok(GovernanceEvent::ProposalApproved { proposal_id: i, signer: g, approval_count })
                        && i@ == proposal_id@ && g@ == env.caller@
                        && approval_count == final(self).approvals.count(proposal_id@) as u32
                    &&& final(self).approvals.of(proposal_id@) == old(self).approvals.of(proposal_id@).insert(env.caller@)
                    &&& forall|k: Seq<u8>| k != proposal_id@ ==> #[trigger] final(self).approvals.of(k) == old(self).approvals.of(k)
                    &&& *final(self) == (GovernanceState { approvals: final(self).approvals, ..*old(self) })
                },
            },
    {
        if !self.signers.contains_key(&env.caller) {
            return Err("caller not signer");
        }
        let executed = match self.proposals.get(&proposal_id) {
            None => {
                return Err("missing proposal");
            },
            Some(p) => p.executed,
        };
        if self.approvals.has(&proposal_id, &env.caller) {
            return Err("ALREADY_APPROVED");
        }
        if executed {
            return Err("proposal already executed");
        }
        let id = copy_bytes(&proposal_id);
        self.approvals.add(proposal_id, copy_bytes(&env.caller));
        let approval_count = self.approvals.count_of(&id) as u32;
        Ok(GovernanceEvent::ProposalApproved { proposal_id: id, signer: copy_bytes(&env.caller), approval_count })
    }

    /// Executes a proposal with enough approvals, between its `eta` and 30
    /// days later: sets the pause flag, writes the accreditation, or issues
    /// the badge (once per farmer). The proposal is marked executed and its
    /// approvals cleared.
    fn execute_proposal(&mut self, env: &BlockchainEnv, proposal_id: Vec<u8>) -> (r: Result<Vec<GovernanceEvent>, &'static str>)
        ensures
            ({
                let p = old(self).proposals@[proposal_id@];
                match old(self).execute_error(env, proposal_id@) {
                    Some(e) => r == Err::<Vec<GovernanceEvent>, &'static str>(e) && *final(self) == *old(self),
                    None => {
                        &&& r matches Ok(evs) && evs@.len() == 2 && effect_event(evs@[0], p)
                            && (evs@[1] matches GovernanceEvent::ProposalExecuted { proposal_id: i } && i@ == proposal_id@)
                        &&& final(self).proposals@ == old(self).proposals@.insert(proposal_id@, final(self).proposals@[proposal_id@])
                        &&& final(self).proposals@[proposal_id@].describes(p.proposal_id@, p.proposal_type, p.target@,
                            p.bool_value, p.role@, p.eta, true, env.block_timestamp)
                        &&& final(self).approvals.of(proposal_id@) == Set::<Seq<u8>>::empty()
                        &&& forall|k: Seq<u8>| k != proposal_id@ ==> #[trigger] final(self).approvals.of(k) == old(self).approvals.of(k)
                        &&& final(self).paused == (if p.proposal_type == PROPOSAL_TYPE_PAUSE { p.bool_value } else { old(self).paused })
                        &&& if p.proposal_type == PROPOSAL_TYPE_VERIFIER_ACCREDITATION {
                            &&& final(self).verifier_accreditations@ == old(self).verifier_accreditations@.insert(p.target@,
                                final(self).verifier_accreditations@[p.target@])
                            &&& final(self).verifier_accreditations@[p.target@].verifier@ == p.target@
                            &&& final(self).verifier_accreditations@[p.target@].approved == p.bool_value
                            &&& final(self).verifier_accreditations@[p.target@].role@ == p.role@
                            &&& final(self).verifier_accreditations@[p.target@].updated_at == env.block_timestamp
                        } else {
                            final(self).verifier_accreditations == old(self).verifier_accreditations
                        }
                        &&& if p.proposal_type == PROPOSAL_TYPE_BADGE_ISSUANCE {
                            &&& final(self).badge_issuances@ == old(self).badge_issuances@.insert(p.target@,
                                final(self).badge_issuances@[p.target@])
                            &&& final(self).badge_issuances@[p.target@]@ == p.role@
                        } else {
                            final(self).badge_issuances == old(self).badge_issuances
                        }
                        &&& final(self).same_setup(old(self))
                    },
                }
            }),
    {
        if !self.signers.contains_key(&env.caller) {
            return Err("caller not signer");
        }
        let (executed, eta, ptype, badge_taken) = match self.proposals.get(&proposal_id) {
            None => {
                return Err("missing proposal");
            },
            Some(p) => (
                p.executed,
                p.eta,
                p.proposal_type,
                p.proposal_type == PROPOSAL_TYPE_BADGE_ISSUANCE && self.badge_issuances.contains_key(&p.target),
            ),
        };
        if executed {
            return Err("proposal already executed");
        }
        if (self.approvals.count_of(&proposal_id) as u64) < self.approval_threshold as u64 {
            return Err("insufficient approvals");
        }
        if env.block_timestamp < eta {
            return Err("timelock not elapsed");
        }
        if env.block_timestamp > eta.saturating_add(EXECUTION_WINDOW_SECONDS) {
            return Err("PROPOSAL_EXPIRED: must be executed within 30 days of timelock expiry");
        }
        if badge_taken {
            return Err("BADGE_ALREADY_ISSUED: farmer already has a badge — revoke first");
        }
        let ghost pid = proposal_id@;
        let taken = self.proposals.take(&proposal_id);
        let proposal = match taken {
            Some(p) => p,
            None => {
                return Err("missing proposal");
            },
        };
        let mut events: Vec<GovernanceEvent> = Vec::new();
        if ptype == PROPOSAL_TYPE_PAUSE {
            self.paused = proposal.bool_value;
            events.push(GovernanceEvent::PauseChanged { paused: proposal.bool_value });
        } else if ptype == PROPOSAL_TYPE_VERIFIER_ACCREDITATION {
            let ghost t = proposal.target@;
            let accreditation = VerifierAccreditation {
                verifier: copy_bytes(&proposal.target),
                approved: proposal.bool_value,
                role: copy_bytes(&proposal.role),
                updated_at: env.block_timestamp,
            };
            self.verifier_accreditations.insert(copy_bytes(&proposal.target), accreditation);
            events.push(GovernanceEvent::VerifierAccreditationChanged {
                verifier: copy_bytes(&proposal.target),
                approved: proposal.bool_value,
                role: copy_bytes(&proposal.role),
            });
            assert(self.verifier_accreditations@ =~= old(self).verifier_accreditations@.insert(t, self.verifier_accreditations@[t]));
        } else {
            let ghost t = proposal.target@;
            self.badge_issuances.insert(copy_bytes(&proposal.target), copy_bytes(&proposal.role));
            events.push(GovernanceEvent::BadgeIssued {
                farmer: copy_bytes(&proposal.target),
                badge_metadata_hash: copy_bytes(&proposal.role),
            });
            assert(self.badge_issuances@ =~= old(self).badge_issuances@.insert(t, self.badge_issuances@[t]));
        }
        let updated = GovernanceProposal { executed: true, executed_at_timestamp: env.block_timestamp, ..proposal };
        let key = copy_bytes(&proposal_id);
        self.proposals.insert(key, updated);
        assert(self.proposals@ =~= old(self).proposals@.insert(pid, self.proposals@[pid]));
        self.approvals.clear(&proposal_id);
        events.push(GovernanceEvent::ProposalExecuted { proposal_id });
        Ok(events)
    }

    /// A signer proposes admitting a GSOC verifier; proposals are numbered
    /// from 1.
    fn propose_gsoc_verifier(
        &mut self,
        env: &BlockchainEnv,
        verifier_did: Vec<u8>,
        credentials_cid: Vec<u8>,
        jurisdiction: Vec<u8>,
    ) -> (r: Result<GovernanceEvent, &'static str>)
        ensures
            old(self).signer_error(env) is Some ==> r == Err::<GovernanceEvent, &'static str>("caller not signer") && *final(self) == *old(self),
            old(self).signer_error(env) is None && verifier_did@ == zero_address() ==>
                r == Err::<GovernanceEvent, &'static str>("empty verifier_did") && *final(self) == *old(self),
            old(self).signer_error(env) is None && verifier_did@ != zero_address() && credentials_cid@.len() == 0 ==>
                r == Err::<GovernanceEvent, &'static str>("empty credentials_cid") && *final(self) == *old(self),
            old(self).signer_error(env) is None && verifier_did@ != zero_address() && credentials_cid@.len() != 0
                && jurisdiction@.len() == 0 ==> r == Err::<GovernanceEvent, &'static str>("empty jurisdiction") && *final(self) == *old(self),
            old(self).signer_error(env) is None && verifier_did@ != zero_address() && credentials_cid@.len() != 0
                && jurisdiction@.len() != 0 && old(self).next_gsoc_verifier_proposal_id == u64::MAX ==>
                r == Err::<GovernanceEvent, &'static str>("gsoc verifier proposal id overflow") && *final(self) == *old(self),
            old(self).signer_error(env) is None && verifier_did@ != zero_address() && credentials_cid@.len() != 0
                && jurisdiction@.len() != 0 && old(self).next_gsoc_verifier_proposal_id < u64::MAX ==> {
                &&& r matches Ok(GovernanceEvent::GsocVerifierProposed { verifier_did: v, jurisdiction: j }) && v@ == verifier_did@
                    && j@ == jurisdiction@
                &&& final(self).gsoc_verifier_proposals@ == old(self).gsoc_verifier_proposals@.insert(
                    u64_be(old(self).next_gsoc_verifier_proposal_id),
                    GsocVerifierProposal { verifier_did, credentials_cid, jurisdiction, eta: old(self).eta_of(env), executed: false },
                )
                &&& final(self).next_gsoc_verifier_proposal_id == old(self).next_gsoc_verifier_proposal_id + 1
                &&& *final(self) == (GovernanceState {
                    gsoc_verifier_proposals: final(self).gsoc_verifier_proposals,
                    next_gsoc_verifier_proposal_id: final(self).next_gsoc_verifier_proposal_id,
                    ..*old(self)
                })
            },
    {
        if !self.signers.contains_key(&env.caller) {
            return Err("caller not signer");
        }
        if is_zero_address(&verifier_did) {
            return Err("empty verifier_did");
        }
        if credentials_cid.len() == 0 {
            return Err("empty credentials_cid");
        }
        if jurisdiction.len() == 0 {
            return Err("empty jurisdiction");
        }
        let proposal_id = self.next_gsoc_verifier_proposal_id;
        if proposal_id == u64::MAX {
            return Err("gsoc verifier proposal id overflow");
        }
        self.next_gsoc_verifier_proposal_id = proposal_id + 1;
        let eta = env.block_timestamp.saturating_add(self.timelock_seconds);
        let event = GovernanceEvent::GsocVerifierProposed {
            verifier_did: copy_bytes(&verifier_did),
            jurisdiction: copy_bytes(&jurisdiction),
        };
        self.gsoc_verifier_proposals.insert(
            period_key(proposal_id),
            GsocVerifierProposal { verifier_did, credentials_cid, jurisdiction, eta, executed: false },
        );
        Ok(event)
    }

    fn approve_gsoc_verifier_proposal(&mut self, env: &BlockchainEnv, proposal_id: u64) -> (r: Result<(), &'static str>)
        ensures
            match old(self).approve_gsoc_error(env, proposal_id) {
                Some(e) => r == Err::<(), &'static str>(e) && *final(self) == *old(self),
                None => {
                    &&& r is Ok
                    &&& final(self).gsoc_verifier_approvals.of(u64_be(proposal_id)) == old(self).gsoc_verifier_approvals.of(
                        u64_be(proposal_id),
                    ).insert(env.caller@)
                    &&& forall|k: Seq<u8>| k != u64_be(proposal_id) ==> #[trigger] final(self).gsoc_verifier_approvals.of(k)
                        == old(self).gsoc_verifier_approvals.of(k)
                    &&& *final(self) == (GovernanceState { gsoc_verifier_approvals: final(self).gsoc_verifier_approvals, ..*old(self) })
                },
            },
    {
        if !self.signers.contains_key(&env.caller) {
            return Err("caller not signer");
        }
        let key = period_key(proposal_id);
        let executed = match self.gsoc_verifier_proposals.get(&key) {
            None => {
                return Err("proposal not found");
            },
            Some(p) => p.executed,
        };
        if executed {
            return Err("proposal already executed");
        }
        if self.gsoc_verifier_approvals.has(&key, &env.caller) {
            return Err("ALREADY_APPROVED");
        }
        self.gsoc_verifier_approvals.add(key, copy_bytes(&env.caller));
        Ok(())
    }

    /// Admits the proposed GSOC verifier (approved) once the timelock has
    /// passed, within 30 days, with enough approvals; the proposal and its
    /// approvals are then removed.
    fn execute_gsoc_verifier_proposal(&mut self, env: &BlockchainEnv, proposal_id: u64) -> (r: Result<GovernanceEvent, &'static str>)
        ensures
            ({
                let k = u64_be(proposal_id);
                let p = old(self).gsoc_verifier_proposals@[k];
                match old(self).execute_gsoc_error(env, proposal_id) {
                    Some(e) => r == Err::<GovernanceEvent, &'static str>(e) && *final(self) == *old(self),
                    None => {
                        &&& r matches Ok(GovernanceEvent::GsocVerifierAdded { verifier_did: v }) && v@ == p.verifier_did@
                        &&& final(self).gsoc_verifier_registry@ == old(self).gsoc_verifier_registry@.insert(
                            p.verifier_did@,
                            GsocVerifierEntry {
                                credentials_cid: p.credentials_cid,
                                jurisdiction: p.jurisdiction,
                                registered_at: env.block_timestamp,
                                approved: true,
                            },
                        )
                        &&& final(self).gsoc_verifier_proposals@ == old(self).gsoc_verifier_proposals@.remove(k)
                        &&& final(self).gsoc_verifier_approvals.of(k) == Set::<Seq<u8>>::empty()
                        &&& forall|k2: Seq<u8>| k2 != k ==> #[trigger] final(self).gsoc_verifier_approvals.of(k2)
                            == old(self).gsoc_verifier_approvals.of(k2)
                        &&& *final(self) == (GovernanceState {
                            gsoc_verifier_registry: final(self).gsoc_verifier_registry,
                            gsoc_verifier_proposals: final(self).gsoc_verifier_proposals,
                            gsoc_verifier_approvals: final(self).gsoc_verifier_approvals,
                            ..*old(self)
                        })
                    },
                }
            }),
    {
        if !self.signers.contains_key(&env.caller) {
            return Err("caller not signer");
        }
        let key = period_key(proposal_id);
        let (executed, eta) = match self.gsoc_verifier_proposals.get(&key) {
            None => {
                return Err("proposal not found");
            },
            Some(p) => (p.executed, p.eta),
        };
        if executed {
            return Err("proposal already executed");
        }
        if env.block_timestamp < eta {
            return Err("timelock not expired");
        }
        if env.block_timestamp > eta.saturating_add(EXECUTION_WINDOW_SECONDS) {
            return Err("GSOC_PROPOSAL_EXPIRED: must be executed within 30 days of timelock expiry");
        }
        if (self.gsoc_verifier_approvals.count_of(&key) as u64) < self.approval_threshold as u64 {
            return Err("INSUFFICIENT_APPROVALS: need at least threshold approvals for GSOC verifier proposals");
        }
        let taken = self.gsoc_verifier_proposals.take(&key);
        let mut added: Vec<u8> = Vec::new();
        match taken {
            Some(p) => {
                added = copy_bytes(&p.verifier_did);
                let entry = GsocVerifierEntry {
                    credentials_cid: p.credentials_cid,
                    jurisdiction: p.jurisdiction,
                    registered_at: env.block_timestamp,
                    approved: true,
                };
                self.gsoc_verifier_registry.insert(p.verifier_did, entry);
            },
            None => {},
        }
        self.gsoc_verifier_approvals.clear(&key);
        Ok(GovernanceEvent::GsocVerifierAdded { verifier_did: added })
    }

    /// Withdraws a GSOC verifier's approval at once (owner only); the entry
    /// stays, marked not approved.
    fn remove_gsoc_verifier(&mut self, env: &BlockchainEnv, verifier_did: Vec<u8>) -> (r: Result<GovernanceEvent, &'static str>)
        ensures
            ({
                let prev = old(self).gsoc_verifier_registry@[verifier_did@];
                if Self::owner_error(env) is Some {
                    r == Err::<GovernanceEvent, &'static str>("Endpoint can only be called by owner") && *final(self) == *old(self)
                } else if !old(self).gsoc_verifier_registry@.contains_key(verifier_did@) {
                    r == Err::<GovernanceEvent, &'static str>("verifier not found") && *final(self) == *old(self)
                } else {
                    &&& r matches Ok(GovernanceEvent::GsocVerifierRemoved { verifier_did: v }) && v@ == verifier_did@
                    &&& final(self).gsoc_verifier_registry@ == old(self).gsoc_verifier_registry@.insert(
                        verifier_did@,
                        GsocVerifierEntry { approved: false, ..prev },
                    )
                    &&& *final(self) == (GovernanceState { gsoc_verifier_registry: final(self).gsoc_verifier_registry, ..*old(self) })
                }
            }),
    {
        if !bytes_eq(&env.caller, &env.owner) {
            return Err("Endpoint can only be called by owner");
        }
        if !self.gsoc_verifier_registry.contains_key(&verifier_did) {
            return Err("verifier not found");
        }
        let event = GovernanceEvent::GsocVerifierRemoved { verifier_did: copy_bytes(&verifier_did) };
        let taken = self.gsoc_verifier_registry.take(&verifier_did);
        match taken {
            Some(entry) => {
                self.gsoc_verifier_registry.insert(verifier_did, GsocVerifierEntry { approved: false, ..entry });
            },
            None => {},
        }
        Ok(event)
    }

    /// Writes storage version 1 when none is recorded yet.
    fn upgrade(&mut self)
        ensures
            *final(self) == (GovernanceState {
                storage_version: if old(self).storage_version < 1 { 1 } else { old(self).storage_version },
                ..*old(self)
            }),
    {
        if self.storage_version < 1 {
            self.storage_version = 1;
        }
    }
}

impl GovernanceState {
    fn insert_proposal(&mut self, proposal_id: Vec<u8>, proposal: GovernanceProposal)
        requires
            old(self).wf(),
            proposal.proposal_type == PROPOSAL_TYPE_PAUSE || proposal.proposal_type == PROPOSAL_TYPE_VERIFIER_ACCREDITATION
                || proposal.proposal_type == PROPOSAL_TYPE_BADGE_ISSUANCE,
        ensures
            final(self).wf(),
            final(self).proposals@ == old(self).proposals@.insert(proposal_id@, proposal),
            *final(self) == (GovernanceState { proposals: final(self).proposals, ..*old(self) }),
    {
        self.proposals.insert(proposal_id, proposal);
    }

    pub fn get_proposal(&self, proposal_id: &[u8]) -> (r: Option<&GovernanceProposal>)
        requires
            self.wf(),
        ensures
            match r {
                Some(p) => self.proposals@.contains_key(proposal_id@) && *p == self.proposals@[proposal_id@],
                None => !self.proposals@.contains_key(proposal_id@),
            },
    {
        self.proposals.get(proposal_id)
    }

    pub fn is_signer(&self, signer: &[u8]) -> (r: bool)
        requires
            self.wf(),
        ensures
            r == self.signers@.contains_key(signer@),
    {
        self.signers.contains_key(signer)
    }

    pub fn get_paused(&self) -> (r: bool)
        ensures
            r == self.paused,
    {
        self.paused
    }

    pub fn get_approval_threshold(&self) -> (r: u32)
        ensures
            r == self.approval_threshold,
    {
        self.approval_threshold
    }

    pub fn get_timelock_seconds(&self) -> (r: u64)
        ensures
            r == self.timelock_seconds,
    {
        self.timelock_seconds
    }

    pub fn get_approval_count(&self, proposal_id: &[u8]) -> (r: usize)
        requires
            self.wf(),
        ensures
            r == self.approvals.count(proposal_id@),
    {
        self.approvals.count_of(proposal_id)
    }

    pub fn get_verifier_accreditation(&self, verifier: &[u8]) -> (r: Option<&VerifierAccreditation>)
        requires
            self.wf(),
        ensures
            match r {
                Some(a) => self.verifier_accreditations@.contains_key(verifier@) && *a == self.verifier_accreditations@[verifier@],
                None => !self.verifier_accreditations@.contains_key(verifier@),
            },
    {
        self.verifier_accreditations.get(verifier)
    }

    /// Whether the verifier holds an approved accreditation.
    pub fn is_accredited_vvb(&self, verifier: &[u8]) -> (r: bool)
        requires
            self.wf(),
        ensures
            r == (self.verifier_accreditations@.contains_key(verifier@) && self.verifier_accreditations@[verifier@].approved),
    {
        match self.verifier_accreditations.get(verifier) {
            Some(a) => a.approved,
            None => false,
        }
    }

    pub fn get_badge_issuance(&self, farmer: &[u8]) -> (r: Option<&Vec<u8>>)
        requires
            self.wf(),
        ensures
            match r {
                Some(h) => self.badge_issuances@.contains_key(farmer@) && *h == self.badge_issuances@[farmer@],
                None => !self.badge_issuances@.contains_key(farmer@),
            },
    {
        self.badge_issuances.get(farmer)
    }

    pub fn is_gsoc_verifier_approved(&self, verifier_did: &[u8]) -> (r: bool)
        requires
            self.wf(),
        ensures
            r == (self.gsoc_verifier_registry@.contains_key(verifier_did@) && self.gsoc_verifier_registry@[verifier_did@].approved),
    {
        match self.gsoc_verifier_registry.get(verifier_did) {
            Some(e) => e.approved,
            None => false,
        }
    }

    pub fn get_storage_version(&self) -> (r: u32)
        ensures
            r == self.storage_version,
    {
        self.storage_version
    }
}

/// An executed proposal can be neither approved nor executed again.
pub proof fn lemma_executed_proposal_is_final(s: GovernanceState, env: BlockchainEnv, proposal_id: Seq<u8>)
    requires
        s.proposals@.contains_key(proposal_id),
        s.proposals@[proposal_id].executed,
    ensures
        s.approve_error(&env, proposal_id) is Some,
        s.execute_error(&env, proposal_id) is Some,
{
}

/// Nothing executes before its timelock has run, nor without the threshold
/// of distinct signer approvals.
pub proof fn lemma_execution_needs_timelock_and_quorum(s: GovernanceState, env: BlockchainEnv, proposal_id: Seq<u8>)
    requires
        s.wf(),
        s.execute_error(&env, proposal_id) is None,
    ensures
        env.block_timestamp >= s.proposals@[proposal_id].eta,
        s.approvals.count(proposal_id) >= s.approval_threshold > 0,
{
}

} // verus!
