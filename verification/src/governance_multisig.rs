//! Operational multisig: signer-approved decisions and dispute voting with
//! a two-thirds supermajority over the signers of the dispute's creation.
use vstd::prelude::*;

use crate::approvals::{lemma_take_filter_step, ApprovalBook};
use crate::bytes::{bytes_eq, copy_bytes, is_zero_address, key2, lit, make_key2, zero_address};
use crate::governance::address_set;
use crate::env::BlockchainEnv;
use crate::mrv_common::{storage_version_upgrade_spec, upgrade_storage_version};
use crate::table::Table;

verus! {

pub const MIN_SIGNERS: u32 = 2;

/// Proposals must be executed within 48 hours of creation.
pub const PROPOSAL_EXPIRY_SECONDS: u64 = 172_800;

/// Disputes must be resolved within 30 days of creation.
pub const DISPUTE_EXPIRY_SECONDS: u64 = 2_592_000;

/// Generic governance proposal with typed action metadata.
pub struct GovProposal {
    pub proposal_id: Vec<u8>,
    pub proposer: Vec<u8>,
    pub proposal_type: Vec<u8>,
    pub target_address: Vec<u8>,
    pub action_data: Vec<u8>,
    pub executed: bool,
    pub created_at: u64,
}

/// Dispute record with vote tallies, requested action, and resolution state.
pub struct DisputeRecord {
    pub dispute_id: Vec<u8>,
    pub rfq_id: Vec<u8>,
    pub accused: Vec<u8>,
    pub evidence_cid: Vec<u8>,
    pub requested_action: Vec<u8>,
    pub vote_approve: u32,
    pub vote_reject: u32,
    pub resolved: bool,
    pub action_taken: Vec<u8>,
    pub decided_at: u64,
    /// Signer count captured at creation time for stable dispute quorum checks.
    pub total_signers_at_creation: u32,
    /// Creation timestamp used to enforce dispute voting expiry.
    pub created_at: u64,
}

/// The storage of the operational multisig.
pub struct MultisigState {
    pub threshold: u32,
    pub signers: Table<()>,
    pub proposals: Table<GovProposal>,
    pub approvals: ApprovalBook,
    pub disputes: Table<DisputeRecord>,
    /// Votes by `key2(dispute_id, voter)`: `true` approves, `false` rejects.
    pub dispute_votes: Table<bool>,
    pub dispute_voters: ApprovalBook,
    /// The signers of each dispute's creation, the only ones who may vote.
    pub dispute_eligible: ApprovalBook,
    pub storage_version: u32,
}

pub open spec fn valid_proposal_type(t: Seq<u8>) -> bool {
    t == lit("force_revert") || t == lit("issuance_reversal") || t == lit("verifier_adjustment") || t == lit("freeze")
        || t == lit("unfreeze")
}

pub open spec fn valid_dispute_action(a: Seq<u8>) -> bool {
    a == lit("FREEZE") || a == lit("CLAW_BACK") || a == lit("WARN")
}

/// The multisig vocabulary: a proposal is one of `force_revert`,
/// `issuance_reversal`, `verifier_adjustment`, `freeze` and `unfreeze`; a
/// dispute requests one of `FREEZE`, `CLAW_BACK` and `WARN`.
pub proof fn lemma_multisig_vocabulary(t: Seq<u8>)
    ensures
        valid_proposal_type(t) <==> (t == lit("force_revert") || t == lit("issuance_reversal") || t == lit(
            "verifier_adjustment",
        ) || t == lit("freeze") || t == lit("unfreeze")),
        valid_dispute_action(t) <==> (t == lit("FREEZE") || t == lit("CLAW_BACK") || t == lit("WARN")),
{
}

/// Votes needed to resolve a dispute: two thirds of the signers at its
/// creation, rounded up.
pub open spec fn supermajority(total: u32) -> int {
    (2 * total + 2) / 3
}

pub open spec fn counts_as(
    eligible: Set<Seq<u8>>,
    signers: Map<Seq<u8>, ()>,
    votes: Map<Seq<u8>, bool>,
    dispute_id: Seq<u8>,
    voter: Seq<u8>,
    approve: bool,
) -> bool {
    &&& eligible.contains(voter)
    &&& signers.contains_key(voter)
    &&& votes.contains_key(key2(dispute_id, voter))
    &&& votes[key2(dispute_id, voter)] == approve
}

pub open spec fn tally(
    eligible: Set<Seq<u8>>,
    signers: Map<Seq<u8>, ()>,
    votes: Map<Seq<u8>, bool>,
    voters: Set<Seq<u8>>,
    dispute_id: Seq<u8>,
    approve: bool,
) -> nat {
    voters.filter(|v: Seq<u8>| counts_as(eligible, signers, votes, dispute_id, v, approve)).len()
}

/// The vote keys of a dispute's voters.
pub open spec fn vote_keys(dispute_id: Seq<u8>, voters: Set<Seq<u8>>) -> Set<Seq<u8>> {
    Set::new(|k: Seq<u8>| exists|v: Seq<u8>| voters.contains(v) && k == key2(dispute_id, v))
}

impl DisputeRecord {
    /// The two records describe the same dispute (everything but the
    /// tallies and the outcome agrees).
    pub open spec fn same_case(&self, o: &DisputeRecord) -> bool {
        &&& self.dispute_id@ == o.dispute_id@
        &&& self.rfq_id@ == o.rfq_id@
        &&& self.accused@ == o.accused@
        &&& self.evidence_cid@ == o.evidence_cid@
        &&& self.requested_action@ == o.requested_action@
        &&& self.total_signers_at_creation == o.total_signers_at_creation
        &&& self.created_at == o.created_at
    }
}

/// The first `n` elements of `s`, as a set.
pub open spec fn prefix_set(s: Seq<Seq<u8>>, n: int) -> Set<Seq<u8>> {
    Set::new(|a: Seq<u8>| exists|j: int| 0 <= j < n && s[j] == a)
}

pub open spec fn clamp_u32(n: int) -> u32 {
    if n > u32::MAX { u32::MAX } else { n as u32 }
}

impl MultisigState {
    /// Tables are well formed; the threshold is at least two and never
    /// exceeds the signer count; a dispute id that is not stored has no
    /// voters and no eligible signers.
    pub open spec fn wf(&self) -> bool {
        &&& self.signers.wf()
        &&& self.proposals.wf()
        &&& self.approvals.wf()
        &&& self.disputes.wf()
        &&& self.dispute_votes.wf()
        &&& self.dispute_voters.wf()
        &&& self.dispute_eligible.wf()
        &&& MIN_SIGNERS <= self.threshold <= self.signers@.len()
        &&& forall|d: Seq<u8>| !self.disputes@.contains_key(d) ==> #[trigger] self.dispute_voters.of(d) == Set::<Seq<u8>>::empty()
        &&& forall|d: Seq<u8>| !self.disputes@.contains_key(d) ==> #[trigger] self.dispute_eligible.of(d) == Set::<Seq<u8>>::empty()
    }

    pub open spec fn owner_error(env: &BlockchainEnv) -> Option<&'static str> {
        if env.caller@ == env.owner@ { None } else { Some("Endpoint can only be called by owner") }
    }

    /// Approvals of a proposal that still come from current signers.
    pub open spec fn live_approvals(&self, proposal_id: Seq<u8>) -> nat {
        self.approvals.of(proposal_id).filter(|a: Seq<u8>| self.signers@.contains_key(a)).len()
    }

    /// The counted votes of a dispute on one side: voters who were eligible
    /// at its creation, are still signers, and voted that way.
    pub open spec fn vote_count(&self, dispute_id: Seq<u8>, approve: bool) -> nat {
        tally(self.dispute_eligible.of(dispute_id), self.signers@, self.dispute_votes@, self.dispute_voters.of(dispute_id),
            dispute_id, approve)
    }

    /// `after` is this state once `env.caller` has voted `approve` on the
    /// dispute: the vote is recorded, the tallies recounted, the dispute
    /// resolved when a side reaches the supermajority (which clears its
    /// votes, voters and electorate).
    pub open spec fn voted(&self, after: Self, env: &BlockchainEnv, dispute_id: Seq<u8>, approve: bool) -> bool {
        let caller = env.caller@;
        let votes1 = self.dispute_votes@.insert(key2(dispute_id, caller), approve);
        let voters1 = self.dispute_voters.of(dispute_id).insert(caller);
        let eligible = self.dispute_eligible.of(dispute_id);
        let a = tally(eligible, self.signers@, votes1, voters1, dispute_id, true);
        let rj = tally(eligible, self.signers@, votes1, voters1, dispute_id, false);
        let rec = self.disputes@[dispute_id];
        let req = supermajority(rec.total_signers_at_creation);
        let done = a >= req || rj >= req;
        let d = after.disputes@[dispute_id];
        &&& after.disputes@ == self.disputes@.insert(dispute_id, d)
        &&& d.same_case(&rec)
        &&& d.vote_approve == clamp_u32(a as int)
        &&& d.vote_reject == clamp_u32(rj as int)
        &&& d.resolved == done
        &&& d.action_taken@ == (if a >= req {
            rec.requested_action@
        } else if rj >= req {
            lit("DISMISSED")
        } else {
            rec.action_taken@
        })
        &&& d.decided_at == (if done { env.block_timestamp } else { rec.decided_at })
        &&& if done {
            &&& after.dispute_votes@ == votes1.remove_keys(vote_keys(dispute_id, voters1))
            &&& after.dispute_voters.of(dispute_id) == Set::<Seq<u8>>::empty()
            &&& after.dispute_eligible.of(dispute_id) == Set::<Seq<u8>>::empty()
        } else {
            &&& after.dispute_votes@ == votes1
            &&& after.dispute_voters.of(dispute_id) == voters1
            &&& after.dispute_eligible.of(dispute_id) == eligible
        }
        &&& forall|k: Seq<u8>| k != dispute_id ==> #[trigger] after.dispute_voters.of(k) == self.dispute_voters.of(k)
        &&& forall|k: Seq<u8>| k != dispute_id ==> #[trigger] after.dispute_eligible.of(k) == self.dispute_eligible.of(k)
        &&& after.signers == self.signers
        &&& after.threshold == self.threshold
        &&& after.proposals == self.proposals
        &&& after.approvals == self.approvals
        &&& after.storage_version == self.storage_version
    }

    pub open spec fn propose_error(&self, env: &BlockchainEnv, proposal_id: Seq<u8>, proposal_type: Seq<u8>) -> Option<&'static str> {
        if !self.signers@.contains_key(env.caller@) {
            Some("caller not a signer")
        } else if proposal_id.len() == 0 {
            Some("empty proposal_id")
        } else if self.proposals@.contains_key(proposal_id) {
            Some("proposal already exists")
        } else if !valid_proposal_type(proposal_type) {
            Some("invalid proposal_type")
        } else {
            None
        }
    }

    pub open spec fn approve_error(&self, env: &BlockchainEnv, proposal_id: Seq<u8>) -> Option<&'static str> {
        if !self.signers@.contains_key(env.caller@) {
            Some("caller not a signer")
        } else if !self.proposals@.contains_key(proposal_id) {
            Some("proposal not found")
        } else if self.approvals.of(proposal_id).contains(env.caller@) {
            Some("already approved")
        } else if self.proposals@[proposal_id].executed {
            Some("proposal already executed")
        } else {
            None
        }
    }

    pub open spec fn execute_error(&self, env: &BlockchainEnv, proposal_id: Seq<u8>) -> Option<&'static str> {
        let p = self.proposals@[proposal_id];
        if !self.signers@.contains_key(env.caller@) {
            Some("caller not a signer")
        } else if !self.proposals@.contains_key(proposal_id) {
            Some("proposal not found")
        } else if p.executed {
            Some("proposal already executed")
        } else if env.block_timestamp > p.created_at + PROPOSAL_EXPIRY_SECONDS {
            Some("PROPOSAL_EXPIRED: proposal must be executed within expiry window")
        } else if self.live_approvals(proposal_id) < self.threshold {
            Some("insufficient approvals")
        } else {
            None
        }
    }

    pub open spec fn submit_dispute_error(
        &self,
        env: &BlockchainEnv,
        dispute_id: Seq<u8>,
        evidence_cid: Seq<u8>,
        requested_action: Seq<u8>,
    ) -> Option<&'static str> {
        if !(self.signers@.contains_key(env.caller@) || env.caller@ == env.owner@) {
            Some("caller not authorized to submit disputes")
        } else if dispute_id.len() == 0 {
            Some("empty dispute_id")
        } else if evidence_cid.len() == 0 {
            Some("empty evidence_cid")
        } else if !valid_dispute_action(requested_action) {
            Some("requested_action must be FREEZE, CLAW_BACK, or WARN")
        } else if self.disputes@.contains_key(dispute_id) {
            Some("dispute already exists")
        } else {
            None
        }
    }

    pub open spec fn vote_error(&self, env: &BlockchainEnv, dispute_id: Seq<u8>) -> Option<&'static str> {
        let d = self.disputes@[dispute_id];
        if !self.signers@.contains_key(env.caller@) {
            Some("caller not a signer")
        } else if !self.disputes@.contains_key(dispute_id) {
            Some("dispute not found")
        } else if d.resolved {
            Some("dispute already resolved")
        } else if d.created_at + DISPUTE_EXPIRY_SECONDS > u64::MAX {
            Some("dispute expiry overflow")
        } else if env.block_timestamp > d.created_at + DISPUTE_EXPIRY_SECONDS {
            Some("DISPUTE_EXPIRED: disputes must be resolved within 30 days of creation")
        } else if !self.dispute_eligible.of(dispute_id).contains(env.caller@) {
            Some("caller was not eligible when dispute was created")
        } else if self.dispute_votes@.contains_key(key2(dispute_id, env.caller@)) {
            Some("already voted on this dispute")
        } else {
            None
        }
    }
}

/// The events of the multi-signature governance.
#[derive(Debug, PartialEq, Eq)]
pub enum MultisigEvent {
    /// `signerAdded`.
    SignerAdded { signer: Vec<u8> },
    /// `signerRemoved`.
    SignerRemoved { signer: Vec<u8> },
    /// `proposalCreated`.
    ProposalCreated { proposal_id: Vec<u8> },
    /// `proposalApproved`: the approver and the proposal's approval count.
    ProposalApproved { proposal_id: Vec<u8>, signer: Vec<u8>, approval_count: u32 },
    /// `proposalExecuted`.
    ProposalExecuted { proposal_id: Vec<u8> },
    /// `disputeSubmitted`.
    DisputeSubmitted { dispute_id: Vec<u8> },
    /// `disputeVoted`.
    DisputeVoted { dispute_id: Vec<u8>, voter: Vec<u8>, approve: bool },
}

/// The endpoints of the operational multisig.
pub trait GovernanceMultisig: Sized {
    spec fn valid(&self) -> bool;

    fn init(env: &BlockchainEnv, threshold: u32, initial_signers: Vec<Vec<u8>>) -> (r: Result<Self, &'static str>)
        ensures
            r matches Ok(s) ==> s.valid();

    fn add_signer(&mut self, env: &BlockchainEnv, signer: Vec<u8>) -> (r: Result<MultisigEvent, &'static str>)
        requires old(self).valid(), ensures final(self).valid();

    fn remove_signer(&mut self, env: &BlockchainEnv, signer: Vec<u8>) -> (r: Result<MultisigEvent, &'static str>)
        requires old(self).valid(), ensures final(self).valid();

    fn propose_action(
        &mut self,
        env: &BlockchainEnv,
        proposal_id: Vec<u8>,
        proposal_type: Vec<u8>,
        target_address: Vec<u8>,
        action_data: Vec<u8>,
    ) -> (r: Result<MultisigEvent, &'static str>)
        requires old(self).valid(), ensures final(self).valid();

    fn approve_proposal(&mut self, env: &BlockchainEnv, proposal_id: Vec<u8>) -> (r: Result<MultisigEvent, &'static str>)
        requires old(self).valid(), ensures final(self).valid();

    fn execute_proposal(&mut self, env: &BlockchainEnv, proposal_id: Vec<u8>) -> (r: Result<MultisigEvent, &'static str>)
        requires old(self).valid(), ensures final(self).valid();

    fn submit_dispute(
        &mut self,
        env: &BlockchainEnv,
        dispute_id: Vec<u8>,
        rfq_id: Vec<u8>,
        accused: Vec<u8>,
        evidence_cid: Vec<u8>,
        requested_action: Vec<u8>,
    ) -> (r: Result<MultisigEvent, &'static str>)
        requires old(self).valid(), ensures final(self).valid();

    fn vote_on_dispute(&mut self, env: &BlockchainEnv, dispute_id: Vec<u8>, approve: bool) -> (r: Result<MultisigEvent, &'static str>)
        requires old(self).valid(), ensures final(self).valid();

    fn upgrade(&mut self) -> (r: Result<(), &'static str>)
        requires old(self).valid(), ensures final(self).valid();
}

impl MultisigState {
    /// Approvals of a proposal that come from current signers.
    fn current_proposal_approval_count(&self, proposal_id: &[u8]) -> (n: u64)
        requires
            self.wf(),
        ensures
            n == self.live_approvals(proposal_id@),
    {
        let ghost pred = |a: Seq<u8>| self.signers@.contains_key(a);
        proof {
            self.approvals.lemma_members_filter(proposal_id@, pred);
        }
        match self.approvals.sets.get(proposal_id) {
            None => {
                proof {
                    assert(self.approvals.members(proposal_id@) =~= Seq::<Seq<u8>>::empty());
                    assert(Seq::<Seq<u8>>::empty().filter(pred) =~= Seq::<Seq<u8>>::empty());
                }
                0
            },
            Some(set) => {
                proof {
                    set.lemma_key_seq();
                }
                let ghost keys = set.key_seq();
                let n = set.len();
                let mut count: u64 = 0;
                let mut i: usize = 0;
                while i < n
                    invariant
                        self.wf(),
                        set.wf(),
                        keys == set.key_seq(),
                        n == keys.len(),
                        n == set@.len(),
                        i <= n,
                        count == keys.take(i as int).filter(pred).len(),
                        forall|a: Seq<u8>| #[trigger] pred(a) == self.signers@.contains_key(a),
                        count <= i,
                    decreases n - i,
                {
                    let who = set.key_at(i);
                    let hit = self.signers.contains_key(who);
                    proof {
                        lemma_take_filter_step(keys, i as int, pred);
                        assert(hit == pred(keys[i as int]));
                    }
                    if hit {
                        count = count + 1;
                    }
                    i = i + 1;
                }
                proof {
                    assert(keys.take(n as int) =~= keys);
                }
                count
            },
        }
    }

    /// The counted approve and reject votes of a dispute.
    fn current_dispute_vote_counts(&self, dispute_id: &[u8]) -> (r: (u64, u64))
        requires
            self.wf(),
        ensures
            r.0 == self.vote_count(dispute_id@, true),
            r.1 == self.vote_count(dispute_id@, false),
    {
        let ghost eligible = self.dispute_eligible.of(dispute_id@);
        let ghost yes = |v: Seq<u8>| counts_as(eligible, self.signers@, self.dispute_votes@, dispute_id@, v, true);
        let ghost no = |v: Seq<u8>| counts_as(eligible, self.signers@, self.dispute_votes@, dispute_id@, v, false);
        proof {
            self.dispute_voters.lemma_members_filter(dispute_id@, yes);
            self.dispute_voters.lemma_members_filter(dispute_id@, no);
        }
        match self.dispute_voters.sets.get(dispute_id) {
            None => {
                proof {
                    assert(self.dispute_voters.members(dispute_id@) =~= Seq::<Seq<u8>>::empty());
                    assert(Seq::<Seq<u8>>::empty().filter(yes) =~= Seq::<Seq<u8>>::empty());
                    assert(Seq::<Seq<u8>>::empty().filter(no) =~= Seq::<Seq<u8>>::empty());
                }
                (0, 0)
            },
            Some(set) => {
                proof {
                    set.lemma_key_seq();
                }
                let ghost keys = set.key_seq();
                let n = set.len();
                let mut approve_count: u64 = 0;
                let mut reject_count: u64 = 0;
                let mut i: usize = 0;
                while i < n
                    invariant
                        self.wf(),
                        set.wf(),
                        keys == set.key_seq(),
                        n == keys.len(),
                        n == set@.len(),
                        i <= n,
                        eligible == self.dispute_eligible.of(dispute_id@),
                        forall|a: Seq<u8>| #[trigger] yes(a) == counts_as(eligible, self.signers@, self.dispute_votes@, dispute_id@, a, true),
                        forall|a: Seq<u8>| #[trigger] no(a) == counts_as(eligible, self.signers@, self.dispute_votes@, dispute_id@, a, false),
                        approve_count == keys.take(i as int).filter(yes).len(),
                        reject_count == keys.take(i as int).filter(no).len(),
                        approve_count <= i,
                        reject_count <= i,
                    decreases n - i,
                {
                    let voter = set.key_at(i);
                    proof {
                        lemma_take_filter_step(keys, i as int, yes);
                        lemma_take_filter_step(keys, i as int, no);
                    }
                    let ghost v = keys[i as int];
                    if self.dispute_eligible.has(dispute_id, voter) && self.signers.contains_key(voter) {
                        let vote_key = make_key2(dispute_id, voter);
                        match self.dispute_votes.get(&vote_key) {
                            Some(b) => {
                                if *b {
                                    assert(yes(v) && !no(v));
                                    approve_count = approve_count + 1;
                                } else {
                                    assert(!yes(v) && no(v));
                                    reject_count = reject_count + 1;
                                }
                            },
                            None => {
                                assert(!yes(v) && !no(v));
                            },
                        }
                    } else {
                        assert(!yes(v) && !no(v));
                    }
                    i = i + 1;
                }
                proof {
                    assert(keys.take(n as int) =~= keys);
                }
                (approve_count, reject_count)
            },
        }
    }

    /// Removes the votes of every voter of a dispute.
    fn clear_dispute_votes(&mut self, dispute_id: &[u8])
        requires
            old(self).wf(),
        ensures
            final(self).dispute_votes.wf(),
            final(self).dispute_votes@ == old(self).dispute_votes@.remove_keys(
                vote_keys(dispute_id@, old(self).dispute_voters.of(dispute_id@)),
            ),
            *final(self) == (MultisigState { dispute_votes: final(self).dispute_votes, ..*old(self) }),
    {
        let ghost votes0 = self.dispute_votes@;
        match self.dispute_voters.sets.get(dispute_id) {
            None => {
                assert(self.dispute_votes@ =~= votes0.remove_keys(vote_keys(dispute_id@, self.dispute_voters.of(dispute_id@))));
            },
            Some(set) => {
                proof {
                    set.lemma_key_seq();
                }
                let ghost keys = set.key_seq();
                let n = set.len();
                let mut i: usize = 0;
                while i < n
                    invariant
                        self.dispute_votes.wf(),
                        set.wf(),
                        keys == set.key_seq(),
                        n == keys.len(),
                        n == set@.len(),
                        i <= n,
                        self.dispute_votes@ == votes0.remove_keys(vote_keys(dispute_id@, prefix_set(keys, i as int))),
                        *self == (MultisigState { dispute_votes: self.dispute_votes, ..*old(self) }),
                    decreases n - i,
                {
                    let voter = set.key_at(i);
                    let vote_key = make_key2(dispute_id, voter);
                    self.dispute_votes.remove(&vote_key);
                    proof {
                        assert(prefix_set(keys, i + 1) =~= prefix_set(keys, i as int).insert(keys[i as int]));
                        assert(self.dispute_votes@ =~= votes0.remove_keys(vote_keys(dispute_id@, prefix_set(keys, i + 1))));
                    }
                    i = i + 1;
                }
                proof {
                    self.dispute_voters.lemma_members(dispute_id@);
                    assert(prefix_set(keys, n as int) =~= self.dispute_voters.of(dispute_id@)) by {
                        assert forall|a: Seq<u8>| self.dispute_voters.of(dispute_id@).contains(a) implies prefix_set(keys, n as int).contains(a) by {
                            assert(keys.contains(a));
                            let j = choose|j: int| 0 <= j < keys.len() && keys[j] == a;
                            assert(keys[j] == a);
                        }
                        assert forall|a: Seq<u8>| prefix_set(keys, n as int).contains(a) implies self.dispute_voters.of(dispute_id@).contains(a) by {
                            let j = choose|j: int| 0 <= j < n && keys[j] == a;
                            assert(keys.contains(keys[j]));
                        }
                    }
                }
            },
        }
    }
}

impl GovernanceMultisig for MultisigState {
    open spec fn valid(&self) -> bool {
        self.wf()
    }

    /// The owner and the initial signers form the signer set, which must
    /// reach the threshold (at least two).
    fn init(env: &BlockchainEnv, threshold: u32, initial_signers: Vec<Vec<u8>>) -> (r: Result<Self, &'static str>)
        ensures
            threshold < MIN_SIGNERS ==> r == Err::<Self, &'static str>("threshold must be >= 2"),
            threshold >= MIN_SIGNERS ==> {
                if exists|j: int| 0 <= j < initial_signers@.len() && #[trigger] initial_signers@[j]@ == zero_address() {
                    r == Err::<Self, &'static str>("signer must not be zero")
                } else if address_set(initial_signers@).insert(env.owner@).len() < threshold {
                    r == Err::<Self, &'static str>(
                        "INSUFFICIENT_INITIAL_SIGNERS: must provide enough signers to meet threshold at deploy",
                    )
                } else {
                    r matches Ok(s) && {
                        &&& s.wf()
                        &&& s.threshold == threshold
                        &&& s.signers@.dom() == address_set(initial_signers@).insert(env.owner@)
                        &&& s.proposals@ == Map::<Seq<u8>, GovProposal>::empty()
                        &&& s.disputes@ == Map::<Seq<u8>, DisputeRecord>::empty()
                        &&& s.storage_version == 1
                    }
                }
            },
    {
        if threshold < MIN_SIGNERS {
            return Err("threshold must be >= 2");
        }
        let mut signers: Table<()> = Table::new();
        signers.insert(copy_bytes(&env.owner), ());
        let mut i: usize = 0;
        while i < initial_signers.len()
            invariant
                threshold >= MIN_SIGNERS,
                i <= initial_signers@.len(),
                signers.wf(),
                signers@.dom() =~= Set::new(|a: Seq<u8>| exists|j: int| 0 <= j < i && #[trigger] initial_signers@[j]@ == a).insert(
                    env.owner@,
                ),
                forall|j: int| 0 <= j < i ==> #[trigger] initial_signers@[j]@ != zero_address(),
            decreases initial_signers@.len() - i,
        {
            let signer = &initial_signers[i];
            if is_zero_address(signer) {
                return Err("signer must not be zero");
            }
            let ghost before = signers@.dom();
            signers.insert(copy_bytes(signer), ());
            i = i + 1;
            assert(signers@.dom() =~= Set::new(|a: Seq<u8>| exists|j: int| 0 <= j < i && #[trigger] initial_signers@[j]@ == a).insert(
                env.owner@,
            )) by {
                assert forall|a: Seq<u8>| signers@.dom().contains(a) && a != env.owner@ implies exists|j: int|
                    0 <= j < i && #[trigger] initial_signers@[j]@ == a by {
                    if a != initial_signers@[i - 1]@ {
                        assert(before.contains(a));
                    }
                }
            }
        }
        assert(signers@.dom() =~= address_set(initial_signers@).insert(env.owner@));
        if signers.len() < threshold as usize {
            return Err("INSUFFICIENT_INITIAL_SIGNERS: must provide enough signers to meet threshold at deploy");
        }
        let s = MultisigState {
            threshold,
            signers,
            proposals: Table::new(),
            approvals: ApprovalBook::new(),
            disputes: Table::new(),
            dispute_votes: Table::new(),
            dispute_voters: ApprovalBook::new(),
            dispute_eligible: ApprovalBook::new(),
            storage_version: 1,
        };
        Ok(s)
    }

    fn add_signer(&mut self, env: &BlockchainEnv, signer: Vec<u8>) -> (r: Result<MultisigEvent, &'static str>)
        ensures
            Self::owner_error(env) is Some ==> r == Err::<MultisigEvent, &'static str>("Endpoint can only be called by owner") && *final(self) == *old(self),
            Self::owner_error(env) is None && signer@ == zero_address() ==>
                r == Err::<MultisigEvent, &'static str>("signer must not be zero") && *final(self) == *old(self),
            Self::owner_error(env) is None && signer@ != zero_address() ==> {
                &&& r matches Ok(MultisigEvent::SignerAdded { signer: g }) && g@ == signer@
                &&& final(self).signers@ == old(self).signers@.insert(signer@, ())
                &&& *final(self) == (MultisigState { signers: final(self).signers, ..*old(self) })
            },
    {
        if !bytes_eq(&env.caller, &env.owner) {
            return Err("Endpoint can only be called by owner");
        }
        if is_zero_address(&signer) {
            return Err("signer must not be zero");
        }
        let ghost before = self.signers@;
        let event = MultisigEvent::SignerAdded { signer: copy_bytes(&signer) };
        self.signers.insert(signer, ());
        proof {
            old(self).signers.lemma_finite();
            self.signers.lemma_finite();
            assert(before.dom().subset_of(self.signers@.dom()));
            vstd::set_lib::lemma_len_subset(before.dom(), self.signers@.dom());
        }
        Ok(event)
    }

    /// Removes a signer while more signers than the threshold remain.
    fn remove_signer(&mut self, env: &BlockchainEnv, signer: Vec<u8>) -> (r: Result<MultisigEvent, &'static str>)
        ensures
            Self::owner_error(env) is Some ==> r == Err::<MultisigEvent, &'static str>("Endpoint can only be called by owner") && *final(self) == *old(self),
            Self::owner_error(env) is None && !old(self).signers@.contains_key(signer@) ==>
                r == Err::<MultisigEvent, &'static str>("not a signer") && *final(self) == *old(self),
            Self::owner_error(env) is None && old(self).signers@.contains_key(signer@) && old(self).signers@.len() <= old(self).threshold ==>
                r == Err::<MultisigEvent, &'static str>("cannot remove signer below threshold") && *final(self) == *old(self),
            Self::owner_error(env) is None && old(self).signers@.contains_key(signer@) && old(self).signers@.len() > old(self).threshold ==> {
                &&& r matches Ok(MultisigEvent::SignerRemoved { signer: g }) && g@ == signer@
                &&& final(self).signers@ == old(self).signers@.remove(signer@)
                &&& *final(self) == (MultisigState { signers: final(self).signers, ..*old(self) })
            },
    {
        if !bytes_eq(&env.caller, &env.owner) {
            return Err("Endpoint can only be called by owner");
        }
        if !self.signers.contains_key(&signer) {
            return Err("not a signer");
        }
        if self.signers.len() <= self.threshold as usize {
            return Err("cannot remove signer below threshold");
        }
        proof {
            self.signers.lemma_finite();
        }
        self.signers.remove(&signer);
        Ok(MultisigEvent::SignerRemoved { signer })
    }

    /// A signer records an operational proposal of a known type.
    fn propose_action(
        &mut self,
        env: &BlockchainEnv,
        proposal_id: Vec<u8>,
        proposal_type: Vec<u8>,
        target_address: Vec<u8>,
        action_data: Vec<u8>,
    ) -> (r: Result<MultisigEvent, &'static str>)
        ensures
            match old(self).propose_error(env, proposal_id@, proposal_type@) {
                Some(e) => r == Err::<MultisigEvent, &'static str>(e) && *final(self) == *old(self),
                None => {
                    let p = final(self).proposals@[proposal_id@];
                    &&& r matches Ok(MultisigEvent::ProposalCreated { proposal_id: i }) && i@ == proposal_id@
                    &&& final(self).proposals@ == old(self).proposals@.insert(proposal_id@, p)
                    &&& p.proposal_id@ == proposal_id@
                    &&& p.proposer@ == env.caller@
                    &&& p.proposal_type == proposal_type
                    &&& p.target_address == target_address
                    &&& p.action_data == action_data
                    &&& !p.executed
                    &&& p.created_at == env.block_timestamp
                    &&& *final(self) == (MultisigState { proposals: final(self).proposals, ..*old(self) })
                },
            },
    {
        if !self.signers.contains_key(&env.caller) {
            return Err("caller not a signer");
        }
        if proposal_id.len() == 0 {
            return Err("empty proposal_id");
        }
        if self.proposals.contains_key(&proposal_id) {
            return Err("proposal already exists");
        }
        if !(bytes_eq(&proposal_type, "force_revert".as_bytes()) || bytes_eq(&proposal_type, "issuance_reversal".as_bytes())
            || bytes_eq(&proposal_type, "verifier_adjustment".as_bytes()) || bytes_eq(&proposal_type, "freeze".as_bytes())
            || bytes_eq(&proposal_type, "unfreeze".as_bytes())) {
            return Err("invalid proposal_type");
        }
        let ghost k = proposal_id@;
        let proposal = GovProposal {
            proposal_id: copy_bytes(&proposal_id),
            proposer: copy_bytes(&env.caller),
            proposal_type,
            target_address,
            action_data,
            executed: false,
            created_at: env.block_timestamp,
        };
        let event = MultisigEvent::ProposalCreated { proposal_id: copy_bytes(&proposal_id) };
        self.proposals.insert(proposal_id, proposal);
        Ok(event)
    }

    /// A signer approves a pending proposal, once.
    fn approve_proposal(&mut self, env: &BlockchainEnv, proposal_id: Vec<u8>) -> (r: Result<MultisigEvent, &'static str>)
        ensures
            match old(self).approve_error(env, proposal_id@) {
                Some(e) => r == Err::<MultisigEvent, &'static str>(e) && *final(self) == *old(self),
                None => {
                    &&& r matches Ok(MultisigEvent::ProposalApproved { proposal_id: i, signer: g, approval_count })
                        && i@ == proposal_id@ && g@ == env.caller@
                        && approval_count == final(self).approvals.count(proposal_id@) as u32
                    &&& final(self).approvals.of(proposal_id@) == old(self).approvals.of(proposal_id@).insert(env.caller@)
                    &&& forall|k: Seq<u8>| k != proposal_id@ ==> #[trigger] final(self).approvals.of(k) == old(self).approvals.of(k)
                    &&& *final(self) == (MultisigState { approvals: final(self).approvals, ..*old(self) })
                },
            },
    {
        if !self.signers.contains_key(&env.caller) {
            return Err("caller not a signer");
        }
        let executed = match self.proposals.get(&proposal_id) {
            None => {
                return Err("proposal not found");
            },
            Some(p) => p.executed,
        };
        if self.approvals.has(&proposal_id, &env.caller) {
            return Err("already approved");
        }
        if executed {
            return Err("proposal already executed");
        }
        let id = copy_bytes(&proposal_id);
        self.approvals.add(proposal_id, copy_bytes(&env.caller));
        let approval_count = self.approvals.count_of(&id) as u32;
        Ok(MultisigEvent::ProposalApproved { proposal_id: id, signer: copy_bytes(&env.caller), approval_count })
    }

    /// Records a proposal as executed once enough current signers approved
    /// it within 48 hours of its creation; its approvals are cleared.
    fn execute_proposal(&mut self, env: &BlockchainEnv, proposal_id: Vec<u8>) -> (r: Result<MultisigEvent, &'static str>)
        ensures
            match old(self).execute_error(env, proposal_id@) {
                Some(e) => r == Err::<MultisigEvent, &'static str>(e) && *final(self) == *old(self),
                None => {
                    &&& r matches Ok(MultisigEvent::ProposalExecuted { proposal_id: i }) && i@ == proposal_id@
                    &&& final(self).proposals@ == old(self).proposals@.insert(
                        proposal_id@,
                        GovProposal { executed: true, ..old(self).proposals@[proposal_id@] },
                    )
                    &&& final(self).approvals.of(proposal_id@) == Set::<Seq<u8>>::empty()
                    &&& forall|k: Seq<u8>| k != proposal_id@ ==> #[trigger] final(self).approvals.of(k) == old(self).approvals.of(k)
                    &&& *final(self) == (MultisigState {
                        proposals: final(self).proposals,
                        approvals: final(self).approvals,
                        ..*old(self)
                    })
                },
            },
    {
        if !self.signers.contains_key(&env.caller) {
            return Err("caller not a signer");
        }
        let (executed, created_at) = match self.proposals.get(&proposal_id) {
            None => {
                return Err("proposal not found");
            },
            Some(p) => (p.executed, p.created_at),
        };
        if executed {
            return Err("proposal already executed");
        }
        if env.block_timestamp > created_at && env.block_timestamp - created_at > PROPOSAL_EXPIRY_SECONDS {
            return Err("PROPOSAL_EXPIRED: proposal must be executed within expiry window");
        }
        if self.current_proposal_approval_count(&proposal_id) < self.threshold as u64 {
            return Err("insufficient approvals");
        }
        let taken = self.proposals.take(&proposal_id);
        match taken {
            Some(p) => {
                self.proposals.insert(copy_bytes(&proposal_id), GovProposal { executed: true, ..p });
            },
            None => {},
        }
        self.approvals.clear(&proposal_id);
        Ok(MultisigEvent::ProposalExecuted { proposal_id })
    }

    /// A signer or the owner opens a dispute; the current signers become its
    /// electorate and their count its quorum base.
    fn submit_dispute(
        &mut self,
        env: &BlockchainEnv,
        dispute_id: Vec<u8>,
        rfq_id: Vec<u8>,
        accused: Vec<u8>,
        evidence_cid: Vec<u8>,
        requested_action: Vec<u8>,
    ) -> (r: Result<MultisigEvent, &'static str>)
        ensures
            match old(self).submit_dispute_error(env, dispute_id@, evidence_cid@, requested_action@) {
                Some(e) => r == Err::<MultisigEvent, &'static str>(e) && *final(self) == *old(self),
                None => {
                    let d = final(self).disputes@[dispute_id@];
                    &&& r matches Ok(MultisigEvent::DisputeSubmitted { dispute_id: i }) && i@ == dispute_id@
                    &&& final(self).disputes@ == old(self).disputes@.insert(dispute_id@, d)
                    &&& d.dispute_id@ == dispute_id@
                    &&& d.rfq_id == rfq_id
                    &&& d.accused == accused
                    &&& d.evidence_cid == evidence_cid
                    &&& d.requested_action == requested_action
                    &&& d.vote_approve == 0 && d.vote_reject == 0
                    &&& !d.resolved
                    &&& d.action_taken@ == Seq::<u8>::empty()
                    &&& d.decided_at == 0
                    &&& d.total_signers_at_creation == old(self).signers@.len() as u32
                    &&& d.created_at == env.block_timestamp
                    &&& final(self).dispute_eligible.of(dispute_id@) == old(self).signers@.dom()
                    &&& forall|k: Seq<u8>| k != dispute_id@ ==> #[trigger] final(self).dispute_eligible.of(k)
                        == old(self).dispute_eligible.of(k)
                    &&& *final(self) == (MultisigState {
                        disputes: final(self).disputes,
                        dispute_eligible: final(self).dispute_eligible,
                        ..*old(self)
                    })
                },
            },
    {
        if !(self.signers.contains_key(&env.caller) || bytes_eq(&env.caller, &env.owner)) {
            return Err("caller not authorized to submit disputes");
        }
        if dispute_id.len() == 0 {
            return Err("empty dispute_id");
        }
        if evidence_cid.len() == 0 {
            return Err("empty evidence_cid");
        }
        if !(bytes_eq(&requested_action, "FREEZE".as_bytes()) || bytes_eq(&requested_action, "CLAW_BACK".as_bytes())
            || bytes_eq(&requested_action, "WARN".as_bytes())) {
            return Err("requested_action must be FREEZE, CLAW_BACK, or WARN");
        }
        if self.disputes.contains_key(&dispute_id) {
            return Err("dispute already exists");
        }
        let signer_count = self.signers.len();
        let total: u32 = signer_count as u32;
        // snapshot the electorate
        proof {
            self.signers.lemma_key_seq();
        }
        let ghost keys = self.signers.key_seq();
        let ghost d = dispute_id@;
        assert(self.dispute_eligible.of(d) =~= prefix_set(keys, 0));
        let mut i: usize = 0;
        while i < signer_count
            invariant
                self.signers == old(self).signers,
                self.signers.wf(),
                self.dispute_eligible.wf(),
                keys == self.signers.key_seq(),
                signer_count == keys.len(),
                signer_count == self.signers@.len(),
                d == dispute_id@,
                i <= signer_count,
                self.dispute_eligible.of(d) == prefix_set(keys, i as int),
                forall|k: Seq<u8>| k != d ==> #[trigger] self.dispute_eligible.of(k) == old(self).dispute_eligible.of(k),
                *self == (MultisigState { dispute_eligible: self.dispute_eligible, ..*old(self) }),
            decreases signer_count - i,
        {
            let signer = copy_bytes(self.signers.key_at(i));
            self.dispute_eligible.add(copy_bytes(&dispute_id), signer);
            proof {
                assert(prefix_set(keys, i + 1) =~= prefix_set(keys, i as int).insert(keys[i as int]));
            }
            i = i + 1;
        }
        proof {
            assert(prefix_set(keys, signer_count as int) =~= old(self).signers@.dom()) by {
                assert forall|a: Seq<u8>| old(self).signers@.dom().contains(a) implies prefix_set(keys, signer_count as int).contains(a) by {
                    assert(keys.contains(a));
                    let j = choose|j: int| 0 <= j < keys.len() && keys[j] == a;
                    assert(keys[j] == a);
                }
                assert forall|a: Seq<u8>| prefix_set(keys, signer_count as int).contains(a) implies old(self).signers@.dom().contains(a) by {
                    let j = choose|j: int| 0 <= j < signer_count && keys[j] == a;
                    assert(keys.contains(keys[j]));
                }
            }
        }
        let record = DisputeRecord {
            dispute_id: copy_bytes(&dispute_id),
            rfq_id,
            accused,
            evidence_cid,
            requested_action,
            vote_approve: 0,
            vote_reject: 0,
            resolved: false,
            action_taken: Vec::new(),
            decided_at: 0,
            total_signers_at_creation: total,
            created_at: env.block_timestamp,
        };
        let event = MultisigEvent::DisputeSubmitted { dispute_id: copy_bytes(&dispute_id) };
        self.disputes.insert(dispute_id, record);
        Ok(event)
    }

    /// An eligible signer votes once within 30 days; the dispute resolves
    /// (approved with its requested action, or `DISMISSED`) as soon as
    /// either side reaches two thirds of its creation-time signers, and its
    /// votes and electorate are then cleared.
    fn vote_on_dispute(&mut self, env: &BlockchainEnv, dispute_id: Vec<u8>, approve: bool) -> (r: Result<MultisigEvent, &'static str>)
        ensures
            match old(self).vote_error(env, dispute_id@) {
                Some(e) => r == Err::<MultisigEvent, &'static str>(e) && *final(self) == *old(self),
                None => (r matches Ok(MultisigEvent::DisputeVoted { dispute_id: i, voter, approve: a }) && i@ == dispute_id@
                    && voter@ == env.caller@ && a == approve) && old(self).voted(*final(self), env, dispute_id@, approve),
            },
    {
        if !self.signers.contains_key(&env.caller) {
            return Err("caller not a signer");
        }
        let (resolved, created_at, total) = match self.disputes.get(&dispute_id) {
            None => {
                return Err("dispute not found");
            },
            Some(d) => (d.resolved, d.created_at, d.total_signers_at_creation),
        };
        if resolved {
            return Err("dispute already resolved");
        }
        if created_at > u64::MAX - DISPUTE_EXPIRY_SECONDS {
            return Err("dispute expiry overflow");
        }
        if env.block_timestamp > created_at + DISPUTE_EXPIRY_SECONDS {
            return Err("DISPUTE_EXPIRED: disputes must be resolved within 30 days of creation");
        }
        if !self.dispute_eligible.has(&dispute_id, &env.caller) {
            return Err("caller was not eligible when dispute was created");
        }
        let vote_key = make_key2(&dispute_id, &env.caller);
        if self.dispute_votes.contains_key(&vote_key) {
            return Err("already voted on this dispute");
        }
        let ghost d = dispute_id@;
        self.dispute_votes.insert(vote_key, approve);
        self.dispute_voters.add(copy_bytes(&dispute_id), copy_bytes(&env.caller));
        let (approve_count, reject_count) = self.current_dispute_vote_counts(&dispute_id);
        let required: u64 = (2 * (total as u64) + 2) / 3;
        let done = approve_count >= required || reject_count >= required;
        let ghost mid = *self;
        let taken = self.disputes.take(&dispute_id);
        match taken {
            Some(record) => {
                let action_taken = if approve_count >= required {
                    copy_bytes(&record.requested_action)
                } else if reject_count >= required {
                    copy_bytes("DISMISSED".as_bytes())
                } else {
                    record.action_taken
                };
                let updated = DisputeRecord {
                    vote_approve: if approve_count > u32::MAX as u64 { u32::MAX } else { approve_count as u32 },
                    vote_reject: if reject_count > u32::MAX as u64 { u32::MAX } else { reject_count as u32 },
                    resolved: done,
                    action_taken,
                    decided_at: if done { env.block_timestamp } else { record.decided_at },
                    ..record
                };
                self.disputes.insert(copy_bytes(&dispute_id), updated);
                assert(self.disputes@ =~= old(self).disputes@.insert(d, self.disputes@[d]));
            },
            None => {},
        }
        if done {
            self.clear_dispute_votes(&dispute_id);
            self.dispute_voters.clear(&dispute_id);
            self.dispute_eligible.clear(&dispute_id);
        }
        Ok(MultisigEvent::DisputeVoted { dispute_id, voter: copy_bytes(&env.caller), approve })
    }

    /// Runs the storage-version upgrade (target and minimum version 1).
    fn upgrade(&mut self) -> (r: Result<(), &'static str>)
        ensures
            match storage_version_upgrade_spec(old(self).storage_version, 1, 1) {
                Ok(v) => r is Ok && *final(self) == (MultisigState { storage_version: v, ..*old(self) }),
                Err(e) => r == Err::<(), &'static str>(e) && *final(self) == *old(self),
            },
    {
        upgrade_storage_version(&mut self.storage_version, 1, 1)
    }
}

impl MultisigState {
    pub fn get_proposal(&self, proposal_id: &[u8]) -> (r: Option<&GovProposal>)
        requires
            self.wf(),
        ensures
            match r {
                Some(p) => self.proposals@.contains_key(proposal_id@) && *p == self.proposals@[proposal_id@],
                None => !self.proposals@.contains_key(proposal_id@),
            },
    {
        self.proposals.get(proposal_id)
    }

    pub fn get_dispute(&self, dispute_id: &[u8]) -> (r: Option<&DisputeRecord>)
        requires
            self.wf(),
        ensures
            match r {
                Some(d) => self.disputes@.contains_key(dispute_id@) && *d == self.disputes@[dispute_id@],
                None => !self.disputes@.contains_key(dispute_id@),
            },
    {
        self.disputes.get(dispute_id)
    }

    pub fn is_signer(&self, addr: &[u8]) -> (r: bool)
        requires
            self.wf(),
        ensures
            r == self.signers@.contains_key(addr@),
    {
        self.signers.contains_key(addr)
    }

    pub fn get_storage_version(&self) -> (r: u32)
        ensures
            r == self.storage_version,
    {
        self.storage_version
    }
}

/// A resolved dispute takes no further vote, and an executed proposal
/// neither approval nor execution.
pub proof fn lemma_decisions_are_final(s: MultisigState, env: BlockchainEnv, dispute_id: Seq<u8>, proposal_id: Seq<u8>)
    ensures
        s.disputes@.contains_key(dispute_id) && s.disputes@[dispute_id].resolved ==> s.vote_error(&env, dispute_id) is Some,
        s.proposals@.contains_key(proposal_id) && s.proposals@[proposal_id].executed ==> s.approve_error(&env, proposal_id) is Some
            && s.execute_error(&env, proposal_id) is Some,
{
}

/// A dispute is decided only by a two-thirds supermajority of the signers
/// it was created with: a vote that leaves both tallies below it leaves the
/// dispute open.
pub proof fn lemma_resolution_needs_supermajority(
    s: MultisigState,
    after: MultisigState,
    env: BlockchainEnv,
    dispute_id: Seq<u8>,
    approve: bool,
)
    requires
        s.voted(after, &env, dispute_id, approve),
        after.disputes@[dispute_id].resolved,
        s.disputes@[dispute_id].total_signers_at_creation > 0,
    ensures
        ({
            let votes1 = s.dispute_votes@.insert(key2(dispute_id, env.caller@), approve);
            let voters1 = s.dispute_voters.of(dispute_id).insert(env.caller@);
            let eligible = s.dispute_eligible.of(dispute_id);
            let req = supermajority(s.disputes@[dispute_id].total_signers_at_creation);
            tally(eligible, s.signers@, votes1, voters1, dispute_id, true) >= req
                || tally(eligible, s.signers@, votes1, voters1, dispute_id, false) >= req
        }),
        supermajority(s.disputes@[dispute_id].total_signers_at_creation) * 3 >= 2 * s.disputes@[dispute_id].total_signers_at_creation,
{
}

/// The resolution threshold is two thirds of the signers at creation,
/// rounded up: it covers two thirds, and one vote fewer does not.
pub proof fn lemma_supermajority_is_two_thirds_rounded_up(total: u32)
    ensures
        supermajority(total) * 3 >= 2 * total,
        (supermajority(total) - 1) * 3 < 2 * total,
{
}

/// A vote resolves its dispute exactly when, counting it, one side holds
/// at least two thirds of the signers the dispute was created with; the
/// approving side then takes the requested action, the rejecting side
/// dismisses it, and otherwise the dispute stays open.
pub proof fn lemma_vote_resolves_at_two_thirds(
    s: MultisigState,
    after: MultisigState,
    env: BlockchainEnv,
    dispute_id: Seq<u8>,
    approve: bool,
)
    requires
        s.voted(after, &env, dispute_id, approve),
    ensures
        ({
            let votes1 = s.dispute_votes@.insert(key2(dispute_id, env.caller@), approve);
            let voters1 = s.dispute_voters.of(dispute_id).insert(env.caller@);
            let eligible = s.dispute_eligible.of(dispute_id);
            let rec = s.disputes@[dispute_id];
            let t = rec.total_signers_at_creation;
            let a = tally(eligible, s.signers@, votes1, voters1, dispute_id, true);
            let rj = tally(eligible, s.signers@, votes1, voters1, dispute_id, false);
            &&& after.disputes@[dispute_id].resolved <==> (a * 3 >= 2 * t || rj * 3 >= 2 * t)
            &&& a * 3 >= 2 * t ==> after.disputes@[dispute_id].action_taken@ == rec.requested_action@
            &&& a * 3 < 2 * t && rj * 3 >= 2 * t ==> after.disputes@[dispute_id].action_taken@ == lit("DISMISSED")
        }),
{
    lemma_supermajority_is_two_thirds_rounded_up(s.disputes@[dispute_id].total_signers_at_creation);
}

} // verus!
