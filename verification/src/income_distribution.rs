//! Merkle-gated COME income distribution: issuers fund a distribution,
//! holders claim their Merkle-proven amount once until expiry, and the
//! unclaimed rest returns to the issuer afterwards.
use vstd::prelude::*;

use crate::amount::{min_be, BigAmount};
use crate::aggregator::{lex_gt, managed_buffer_lex_gt};
use crate::atomic_swap::{decode_esdt_token, esdt_decode_error};
use crate::bytes::{bytes_eq, copy_bytes, is_zero_address, key2, len_prefixed, make_key2, push_bytes, u32_be, zero_address};
use crate::crypto::{esdt_identifier_valid, is_valid_esdt_identifier, keccak256, keccak256_of};
use crate::env::{BlockchainEnv, Payment, Transfer};
use crate::mrv_common::{MrvGovernanceModule, MrvGovernanceState};
use crate::ledger::{lemma_value_sum_agree, lemma_value_sum_remove, value_sum};
use crate::table::Table;

verus! {

/// Shortest claim window, in epochs.
pub const MINIMUM_CLAIM_WINDOW_EPOCHS: u64 = 5_000;

/// Longest distribution identifier, in bytes.
pub const MAX_DISTRIBUTION_ID_LEN: usize = 128;

/// Deepest accepted Merkle proof.
pub const MAX_MERKLE_PROOF_DEPTH: usize = 64;

/// Merkle-gated COME distribution record with funding, claim tracking, and expiry.
pub struct DistributionRecord {
    pub distribution_id: Vec<u8>,
    pub issuer: Vec<u8>,
    pub merkle_root: Vec<u8>,
    /// Off-chain reference block of the holder snapshot (not enforced).
    pub snapshot_block: u64,
    pub manifest_cid: Vec<u8>,
    pub total_amount_scaled: BigAmount,
    pub total_claimed_scaled: BigAmount,
    pub expiry_epoch: u64,
    pub funded_at: u64,
    pub reclaimed: bool,
}

/// The storage of the distribution contract.
pub struct IncomeDistributionState {
    pub gov: MrvGovernanceState,
    pub come_token_id: Vec<u8>,
    pub distributions: Table<DistributionRecord>,
    /// Claimed amounts by `key2(distribution_id, holder)`.
    pub claimed: Table<BigAmount>,
    pub distribution_paused: Table<()>,
    /// Unpaid reclaim per distribution; an absent entry reads as `0`.
    pub reclaim_shortfall: Table<BigAmount>,
    pub storage_version: u32,
}

/// The leaf of a holder's claim: the distribution id, the holder and the
/// amount, hashed.
pub open spec fn claim_leaf_preimage(distribution_id: Seq<u8>, holder: Seq<u8>, amount: nat) -> Seq<u8> {
    distribution_id + holder + min_be(amount)
}

/// One proof step: the smaller of the two hashes (as byte strings) first.
pub open spec fn merkle_step(current: Seq<u8>, sibling: Seq<u8>) -> Seq<u8> {
    if !lex_gt(current, sibling) {
        keccak256_of(current + sibling)
    } else {
        keccak256_of(sibling + current)
    }
}

/// The root reached from `current` by the remaining proof steps.
pub open spec fn merkle_fold(current: Seq<u8>, proof: Seq<Seq<u8>>) -> Seq<u8>
    decreases proof.len(),
{
    if proof.len() == 0 {
        current
    } else {
        merkle_fold(merkle_step(current, proof[0]), proof.drop_first())
    }
}

pub open spec fn proof_views(proof: Seq<Vec<u8>>) -> Seq<Seq<u8>> {
    proof.map_values(|p: Vec<u8>| p@)
}

/// The root a claim proves.
pub open spec fn claim_root(distribution_id: Seq<u8>, holder: Seq<u8>, amount: nat, proof: Seq<Seq<u8>>) -> Seq<u8> {
    merkle_fold(keccak256_of(claim_leaf_preimage(distribution_id, holder, amount)), proof)
}

/// Computes the root that a Merkle proof leads to from a holder's claim.
pub fn compute_claim_root(distribution_id: &[u8], holder: &[u8], amount_scaled: &BigAmount, merkle_proof: &Vec<Vec<u8>>) -> (r: Vec<u8>)
    ensures
        r@ == claim_root(distribution_id@, holder@, amount_scaled@, proof_views(merkle_proof@)),
{
    let mut preimage = copy_bytes(distribution_id);
    push_bytes(&mut preimage, holder);
    push_bytes(&mut preimage, &amount_scaled.to_be_bytes());
    assert(preimage@ =~= claim_leaf_preimage(distribution_id@, holder@, amount_scaled@));
    let mut current = keccak256(&preimage);
    let ghost proof = proof_views(merkle_proof@);
    assert(proof.skip(0) =~= proof);
    let mut i: usize = 0;
    while i < merkle_proof.len()
        invariant
            i <= merkle_proof@.len(),
            proof == proof_views(merkle_proof@),
            merkle_fold(current@, proof.skip(i as int)) == claim_root(distribution_id@, holder@, amount_scaled@, proof),
        decreases merkle_proof@.len() - i,
    {
        let sibling = &merkle_proof[i];
        assert(proof.skip(i as int)[0] == sibling@);
        assert(proof.skip(i as int).drop_first() =~= proof.skip(i + 1));
        let mut combined: Vec<u8> = Vec::new();
        if !managed_buffer_lex_gt(&current, sibling) {
            push_bytes(&mut combined, &current);
            push_bytes(&mut combined, sibling);
        } else {
            push_bytes(&mut combined, sibling);
            push_bytes(&mut combined, &current);
        }
        assert(combined@ =~= (if !lex_gt(current@, sibling@) { current@ + sibling@ } else { sibling@ + current@ }));
        current = keccak256(&combined);
        i = i + 1;
    }
    assert(proof.skip(merkle_proof@.len() as int) =~= Seq::<Seq<u8>>::empty());
    current
}

/// The events of the distribution contract.
#[derive(Debug, PartialEq, Eq)]
pub enum IncomeDistributionEvent {
    /// `distributionFunded`.
    DistributionFunded { distribution_id: Vec<u8>, total_amount: BigAmount },
    /// `yieldClaimed`.
    YieldClaimed { distribution_id: Vec<u8>, holder: Vec<u8>, amount: BigAmount },
    /// `shortfallDetected`: the contract held less than the unclaimed rest.
    ShortfallDetected { distribution_id: Vec<u8>, expected_amount: BigAmount, actual_amount: BigAmount, shortfall: BigAmount },
    /// `shortfallRecovered`.
    ShortfallRecovered { distribution_id: Vec<u8>, recovered_amount: BigAmount },
    /// `distributionReclaimed`.
    DistributionReclaimed { distribution_id: Vec<u8> },
    /// `distributionPaused`.
    DistributionPaused { distribution_id: Vec<u8> },
    /// `distributionUnpaused`.
    DistributionUnpaused { distribution_id: Vec<u8> },
}

/// The events of a reclaim of `distribution_id` whose unclaimed rest is
/// `unclaimed` against a COME balance of `sc_balance`: the shortfall notice
/// when the balance does not cover the rest, then the reclaim itself.
pub open spec fn reclaim_events(evs: Seq<IncomeDistributionEvent>, distribution_id: Seq<u8>, unclaimed: int, sc_balance: BigAmount) -> bool {
    let short = sc_balance@ < unclaimed;
    &&& evs.len() == (if short { 2nat } else { 1nat })
    &&& short ==> (evs[0] matches IncomeDistributionEvent::ShortfallDetected { distribution_id: i, expected_amount, actual_amount, shortfall }
        && i@ == distribution_id && expected_amount@ == unclaimed && actual_amount@ == sc_balance@ && shortfall@ == unclaimed - sc_balance@)
    &&& evs.last() matches IncomeDistributionEvent::DistributionReclaimed { distribution_id: i } && i@ == distribution_id
}

/// Whether `k` is the claim key of some holder in distribution `d`.
pub open spec fn is_claim_key_of(k: Seq<u8>, d: Seq<u8>) -> bool {
    exists|h: Seq<u8>| k == #[trigger] key2(d, h)
}

/// The sum of the amounts that the holders of distribution `d` have claimed.
pub open spec fn claimed_total(claimed: Map<Seq<u8>, BigAmount>, d: Seq<u8>) -> int {
    value_sum(claimed, claimed.dom().filter(|k: Seq<u8>| is_claim_key_of(k, d)), |v: BigAmount| v@ as int)
}

/// Distinct distribution ids (of an accepted length) never share a claim key.
proof fn lemma_claim_key_determines_distribution(d1: Seq<u8>, h1: Seq<u8>, d2: Seq<u8>, h2: Seq<u8>)
    requires
        d1.len() <= MAX_DISTRIBUTION_ID_LEN,
        d2.len() <= MAX_DISTRIBUTION_ID_LEN,
        key2(d1, h1) == key2(d2, h2),
    ensures
        d1 == d2,
{
    let n1 = d1.len() as u32;
    let n2 = d2.len() as u32;
    let k1 = key2(d1, h1);
    let k2 = key2(d2, h2);
    assert(k1 == len_prefixed(d1) + len_prefixed(h1));
    assert(k2 == len_prefixed(d2) + len_prefixed(h2));
    assert(len_prefixed(d1) == u32_be(n1) + d1);
    assert(len_prefixed(d2) == u32_be(n2) + d2);
    assert(k1[3] == len_prefixed(d1)[3]);
    assert(k2[3] == len_prefixed(d2)[3]);
    assert(len_prefixed(d1)[3] == u32_be(n1)[3]);
    assert(len_prefixed(d2)[3] == u32_be(n2)[3]);
    assert(u32_be(n1)[3] == n1 as u8);
    assert(u32_be(n2)[3] == n2 as u8);
    assert(n1 as u8 == n1) by (bit_vector)
        requires
            n1 < 256,
    ;
    assert(n2 as u8 == n2) by (bit_vector)
        requires
            n2 < 256,
    ;
    assert(d1.len() == d2.len());
    assert forall|i: int| 0 <= i < d1.len() implies d1[i] == d2[i] by {
        assert(k1[4 + i] == len_prefixed(d1)[4 + i]);
        assert(k2[4 + i] == len_prefixed(d2)[4 + i]);
    }
    assert(d1 =~= d2);
}

/// Recording a new claim of `amount` by `holder` in `d` adds `amount` to the
/// claimed total of `d` and leaves that of every other distribution.
proof fn lemma_claimed_total_insert(claimed: Map<Seq<u8>, BigAmount>, d: Seq<u8>, holder: Seq<u8>, amount: BigAmount, e: Seq<u8>)
    requires
        claimed.dom().finite(),
        !claimed.contains_key(key2(d, holder)),
        d.len() <= MAX_DISTRIBUTION_ID_LEN,
        e.len() <= MAX_DISTRIBUTION_ID_LEN,
    ensures
        claimed_total(claimed.insert(key2(d, holder), amount), e) == claimed_total(claimed, e) + (if e == d {
            amount@ as int
        } else {
            0
        }),
{
    let k = key2(d, holder);
    let m2 = claimed.insert(k, amount);
    let w = |v: BigAmount| v@ as int;
    let p = |x: Seq<u8>| is_claim_key_of(x, e);
    let s1 = claimed.dom().filter(p);
    let s2 = m2.dom().filter(p);
    vstd::set::axiom_set_intersect_finite(claimed.dom(), Set::new(p));
    assert(s1 =~= claimed.dom().intersect(Set::new(p)));
    assert(!claimed.dom().contains(k));
    assert(!s1.contains(k));
    assert forall|x: Seq<u8>| s1.contains(x) implies w(#[trigger] m2[x]) == w(claimed[x]) by {
        assert(claimed.dom().contains(x));
        assert(x != k);
        assert(m2[x] == claimed[x]);
    }
    if e == d {
        assert(is_claim_key_of(k, e));
        assert(s2 =~= s1.insert(k));
        lemma_value_sum_remove(m2, s2, k, w);
        assert(s2.remove(k) =~= s1);
        lemma_value_sum_agree(m2, claimed, s1, w);
    } else {
        assert(!is_claim_key_of(k, e)) by {
            if is_claim_key_of(k, e) {
                let h = choose|h: Seq<u8>| k == #[trigger] key2(e, h);
                lemma_claim_key_determines_distribution(d, holder, e, h);
            }
        }
        assert(s2 =~= s1);
        lemma_value_sum_agree(m2, claimed, s1, w);
    }
}

impl IncomeDistributionState {
    /// Tables are well formed, no distribution has paid out more than it
    /// was funded with, and each distribution's claimed total is the sum of
    /// its holders' recorded claims (there are none for an unfunded id).
    pub open spec fn wf(&self) -> bool {
        &&& self.distributions.wf()
        &&& self.claimed.wf()
        &&& self.distribution_paused.wf()
        &&& self.reclaim_shortfall.wf()
        &&& forall|d: Seq<u8>| #[trigger] self.distributions@.contains_key(d) ==> {
            &&& self.distributions@[d].total_claimed_scaled@ <= self.distributions@[d].total_amount_scaled@
            &&& d.len() <= MAX_DISTRIBUTION_ID_LEN
        }
        &&& forall|d: Seq<u8>| d.len() <= MAX_DISTRIBUTION_ID_LEN ==> #[trigger] claimed_total(self.claimed@, d) == (if self.distributions@.contains_key(d) {
            self.distributions@[d].total_claimed_scaled@ as int
        } else {
            0
        })
    }

    pub open spec fn auth_error(&self, env: &BlockchainEnv) -> Option<&'static str> {
        self.gov.governance_or_owner_error(env.caller@, env.owner@)
    }

    pub open spec fn shortfall(&self, d: Seq<u8>) -> nat {
        if self.reclaim_shortfall@.contains_key(d) { self.reclaim_shortfall@[d]@ } else { 0 }
    }

    pub open spec fn fund_error(
        &self,
        env: &BlockchainEnv,
        payment: Payment,
        distribution_id: Seq<u8>,
        merkle_root: Seq<u8>,
        manifest_cid: Seq<u8>,
        expiry_epoch: u64,
    ) -> Option<&'static str> {
        if self.auth_error(env) is Some {
            self.auth_error(env)
        } else if distribution_id.len() == 0 {
            Some("empty distribution_id")
        } else if distribution_id.len() > MAX_DISTRIBUTION_ID_LEN {
            Some("distribution_id exceeds maximum length")
        } else if merkle_root.len() != 32 {
            Some("merkle_root must be 32 bytes")
        } else if merkle_root == zero_address() {
            Some("merkle_root must not be all zeros")
        } else if manifest_cid.len() == 0 {
            Some("empty manifest_cid")
        } else if expiry_epoch < env.block_epoch + MINIMUM_CLAIM_WINDOW_EPOCHS {
            Some("expiry_epoch must be at least MINIMUM_CLAIM_WINDOW_EPOCHS from now")
        } else if self.distributions@.contains_key(distribution_id) {
            Some("distribution already exists")
        } else if payment.token_id@ != self.come_token_id@ {
            Some("must pay with COME token")
        } else if payment.amount@ == 0 {
            Some("must fund with positive amount")
        } else {
            None
        }
    }

    /// Why a claim is refused, given the root its proof leads to.
    pub open spec fn claim_error(
        &self,
        env: &BlockchainEnv,
        distribution_id: Seq<u8>,
        amount_scaled: BigAmount,
        proof_len: nat,
        proven_root: Seq<u8>,
        sc_balance: BigAmount,
    ) -> Option<&'static str> {
        let d = self.distributions@[distribution_id];
        if proof_len > MAX_MERKLE_PROOF_DEPTH {
            Some("MERKLE_PROOF_TOO_DEEP")
        } else if self.distribution_paused@.contains_key(distribution_id) {
            Some("DISTRIBUTION_PAUSED: claims are temporarily suspended")
        } else if !self.distributions@.contains_key(distribution_id) {
            Some("distribution not found")
        } else if env.block_epoch > d.expiry_epoch {
            Some("DISTRIBUTION_EXPIRED")
        } else if d.reclaimed {
            Some("distribution already reclaimed")
        } else if self.claimed@.contains_key(key2(distribution_id, env.caller@)) {
            Some("ALREADY_CLAIMED")
        } else if proven_root != d.merkle_root@ {
            Some("INVALID_MERKLE_PROOF")
        } else if d.total_claimed_scaled@ + amount_scaled@ > d.total_amount_scaled@ {
            Some("CLAIMS_EXCEED_FUNDED: cumulative claims would exceed distribution total")
        } else if sc_balance@ < amount_scaled@ {
            Some("INSUFFICIENT_CONTRACT_BALANCE: contract does not hold enough COME to pay this claim")
        } else {
            None
        }
    }

    /// What a claim does, given the root its proof leads to: refused, or
    /// recorded and paid to the caller.
    pub open spec fn claim_outcome(
        &self,
        env: &BlockchainEnv,
        distribution_id: Seq<u8>,
        amount_scaled: BigAmount,
        proof_len: nat,
        proven_root: Seq<u8>,
        sc_balance: BigAmount,
        r: Result<(Vec<Transfer>, IncomeDistributionEvent), &'static str>,
        after: Self,
    ) -> bool {
        match self.claim_error(env, distribution_id, amount_scaled, proof_len, proven_root, sc_balance) {
            Some(e) => r == Err::<(Vec<Transfer>, IncomeDistributionEvent), &'static str>(e) && after == *self,
            None => {
                let d = self.distributions@[distribution_id];
                &&& r matches Ok((t, ev)) && t@.len() == 1 && t@[0].to@ == env.caller@ && t@[0].token_id@ == self.come_token_id@
                    && t@[0].amount@ == amount_scaled@
                    && (ev matches IncomeDistributionEvent::YieldClaimed { distribution_id: i, holder: h, amount }
                    && i@ == distribution_id && h@ == env.caller@ && amount@ == amount_scaled@)
                &&& after.claimed@ == self.claimed@.insert(key2(distribution_id, env.caller@), amount_scaled)
                &&& after.distributions@ == self.distributions@.insert(
                    distribution_id,
                    DistributionRecord { total_claimed_scaled: after.distributions@[distribution_id].total_claimed_scaled, ..d },
                )
                &&& after.distributions@[distribution_id].total_claimed_scaled@ == d.total_claimed_scaled@ + amount_scaled@
                &&& after == (IncomeDistributionState { claimed: after.claimed, distributions: after.distributions, ..*self })
            },
        }
    }
}

/// The endpoints of the distribution contract.
pub trait IncomeDistribution: Sized {
    spec fn valid(&self) -> bool;

    fn init(env: &BlockchainEnv, governance: Vec<u8>, come_token_id: Vec<u8>) -> (r: Result<Self, &'static str>)
        ensures
            r matches Ok(s) ==> s.valid();

    fn fund_distribution(
        &mut self,
        env: &BlockchainEnv,
        payment: &Payment,
        distribution_id: Vec<u8>,
        merkle_root: Vec<u8>,
        snapshot_block: u64,
        manifest_cid: Vec<u8>,
        expiry_epoch: u64,
    ) -> (r: Result<IncomeDistributionEvent, &'static str>)
        requires old(self).valid(), ensures final(self).valid();

    fn claim_yield(
        &mut self,
        env: &BlockchainEnv,
        distribution_id: Vec<u8>,
        amount_scaled: BigAmount,
        merkle_proof: Vec<Vec<u8>>,
        sc_balance: BigAmount,
    ) -> (r: Result<(Vec<Transfer>, IncomeDistributionEvent), &'static str>)
        requires old(self).valid(), ensures final(self).valid();

    fn pause_distribution(&mut self, env: &BlockchainEnv, distribution_id: Vec<u8>) -> (r: Result<IncomeDistributionEvent, &'static str>)
        requires old(self).valid(), ensures final(self).valid();

    fn unpause_distribution(&mut self, env: &BlockchainEnv, distribution_id: Vec<u8>) -> (r: Result<IncomeDistributionEvent, &'static str>)
        requires old(self).valid(), ensures final(self).valid();

    fn reclaim_expired(&mut self, env: &BlockchainEnv, distribution_id: Vec<u8>, sc_balance: BigAmount) -> (r: Result<(Vec<Transfer>, Vec<IncomeDistributionEvent>), &'static str>)
        requires old(self).valid(), ensures final(self).valid();

    fn recover_shortfall(&mut self, env: &BlockchainEnv, distribution_id: Vec<u8>, payment: &Payment) -> (r: Result<(Vec<Transfer>, IncomeDistributionEvent), &'static str>)
        requires old(self).valid(), ensures final(self).valid();
}

impl IncomeDistributionState {
    /// Records and pays a claim whose proof leads to `proven_root`.
    pub fn record_claim(
        &mut self,
        env: &BlockchainEnv,
        distribution_id: Vec<u8>,
        amount_scaled: BigAmount,
        proof_len: usize,
        proven_root: &[u8],
        sc_balance: BigAmount,
    ) -> (r: Result<(Vec<Transfer>, IncomeDistributionEvent), &'static str>)
        requires
            old(self).wf(),
        ensures
            final(self).wf(),
            old(self).claim_outcome(env, distribution_id@, amount_scaled, proof_len as nat, proven_root@, sc_balance, r,
                *final(self)),
    {
        if proof_len > MAX_MERKLE_PROOF_DEPTH {
            return Err("MERKLE_PROOF_TOO_DEEP");
        }
        if self.distribution_paused.contains_key(&distribution_id) {
            return Err("DISTRIBUTION_PAUSED: claims are temporarily suspended");
        }
        let (expiry, reclaimed, claimed_after, total, root_matches) = match self.distributions.get(&distribution_id) {
            None => {
                return Err("distribution not found");
            },
            Some(d) => (
                d.expiry_epoch,
                d.reclaimed,
                d.total_claimed_scaled.plus(&amount_scaled),
                d.total_amount_scaled.copy(),
                bytes_eq(proven_root, &d.merkle_root),
            ),
        };
        if env.block_epoch > expiry {
            return Err("DISTRIBUTION_EXPIRED");
        }
        if reclaimed {
            return Err("distribution already reclaimed");
        }
        let claim_key = make_key2(&distribution_id, &env.caller);
        if self.claimed.contains_key(&claim_key) {
            return Err("ALREADY_CLAIMED");
        }
        if !root_matches {
            return Err("INVALID_MERKLE_PROOF");
        }
        if !claimed_after.at_most(&total) {
            return Err("CLAIMS_EXCEED_FUNDED: cumulative claims would exceed distribution total");
        }
        if !amount_scaled.at_most(&sc_balance) {
            return Err("INSUFFICIENT_CONTRACT_BALANCE: contract does not hold enough COME to pay this claim");
        }
        let event = IncomeDistributionEvent::YieldClaimed {
            distribution_id: copy_bytes(&distribution_id),
            holder: copy_bytes(&env.caller),
            amount: amount_scaled.copy(),
        };
        let transfer = Transfer { to: copy_bytes(&env.caller), token_id: copy_bytes(&self.come_token_id), amount: amount_scaled.copy() };
        let ghost amount = amount_scaled;
        self.claimed.insert(claim_key, amount_scaled);
        let ghost k = distribution_id@;
        let taken = self.distributions.take(&distribution_id);
        match taken {
            Some(d) => {
                let updated = DistributionRecord { total_claimed_scaled: claimed_after, ..d };
                self.distributions.insert(copy_bytes(&distribution_id), updated);
                assert(self.distributions@ =~= old(self).distributions@.insert(
                    k,
                    DistributionRecord {
                        total_claimed_scaled: self.distributions@[k].total_claimed_scaled,
                        ..old(self).distributions@[k]
                    },
                ));
            },
            None => {},
        }
        proof {
            old(self).claimed.lemma_finite();
            assert forall|e: Seq<u8>| e.len() <= MAX_DISTRIBUTION_ID_LEN implies #[trigger] claimed_total(self.claimed@, e) == (if self.distributions@.contains_key(e) {
                self.distributions@[e].total_claimed_scaled@ as int
            } else {
                0
            }) by {
                lemma_claimed_total_insert(old(self).claimed@, distribution_id@, env.caller@, amount, e);
            }
        }
        let mut transfers: Vec<Transfer> = Vec::new();
        transfers.push(transfer);
        Ok((transfers, event))
    }
}

impl IncomeDistribution for IncomeDistributionState {
    open spec fn valid(&self) -> bool {
        self.wf()
    }

    fn init(env: &BlockchainEnv, governance: Vec<u8>, come_token_id: Vec<u8>) -> (r: Result<Self, &'static str>)
        ensures
            ({
                let e = if esdt_decode_error(come_token_id@) is Some {
                    esdt_decode_error(come_token_id@)
                } else if governance@ == zero_address() {
                    Some("governance must not be zero")
                } else if !esdt_identifier_valid(come_token_id@) {
                    Some("invalid COME token ID")
                } else {
                    None
                };
                match e {
                    Some(m) => r == Err::<Self, &'static str>(m),
                    None => r matches Ok(s) && {
                        &&& s.wf()
                        &&& s.gov.governance == Some(governance)
                        &&& s.come_token_id == come_token_id
                        &&& s.distributions@ == Map::<Seq<u8>, DistributionRecord>::empty()
                        &&& s.claimed@ == Map::<Seq<u8>, BigAmount>::empty()
                        &&& s.storage_version == 1
                    },
                }
            }),
    {
        if let Err(e) = decode_esdt_token(&come_token_id) {
            return Err(e);
        }
        if is_zero_address(&governance) {
            return Err("governance must not be zero");
        }
        if !is_valid_esdt_identifier(&come_token_id) {
            return Err("invalid COME token ID");
        }
        Ok(IncomeDistributionState {
            gov: MrvGovernanceState::with_governance(governance),
            come_token_id,
            distributions: Table::new(),
            claimed: Table::new(),
            distribution_paused: Table::new(),
            reclaim_shortfall: Table::new(),
            storage_version: 1,
        })
    }

    /// Funds a distribution with the attached COME and records its Merkle
    /// root, manifest and expiry (at least `MINIMUM_CLAIM_WINDOW_EPOCHS`
    /// away).
    fn fund_distribution(
        &mut self,
        env: &BlockchainEnv,
        payment: &Payment,
        distribution_id: Vec<u8>,
        merkle_root: Vec<u8>,
        snapshot_block: u64,
        manifest_cid: Vec<u8>,
        expiry_epoch: u64,
    ) -> (r: Result<IncomeDistributionEvent, &'static str>)
        ensures
            match old(self).fund_error(env, *payment, distribution_id@, merkle_root@, manifest_cid@, expiry_epoch) {
                Some(e) => r == Err::<IncomeDistributionEvent, &'static str>(e) && *final(self) == *old(self),
                None => {
                    let d = final(self).distributions@[distribution_id@];
                    &&& r matches Ok(IncomeDistributionEvent::DistributionFunded { distribution_id: i, total_amount })
                        && i@ == distribution_id@ && total_amount@ == payment.amount@
                    &&& final(self).distributions@ == old(self).distributions@.insert(distribution_id@, d)
                    &&& d.distribution_id@ == distribution_id@
                    &&& d.issuer@ == env.caller@
                    &&& d.merkle_root == merkle_root
                    &&& d.snapshot_block == snapshot_block
                    &&& d.manifest_cid == manifest_cid
                    &&& d.total_amount_scaled@ == payment.amount@
                    &&& d.total_claimed_scaled@ == 0
                    &&& d.expiry_epoch == expiry_epoch
                    &&& d.funded_at == env.block_timestamp
                    &&& !d.reclaimed
                    &&& *final(self) == (IncomeDistributionState { distributions: final(self).distributions, ..*old(self) })
                },
            },
    {
        if let Err(e) = self.gov.require_governance_or_owner(env) {
            return Err(e);
        }
        if distribution_id.len() == 0 {
            return Err("empty distribution_id");
        }
        if distribution_id.len() > MAX_DISTRIBUTION_ID_LEN {
            return Err("distribution_id exceeds maximum length");
        }
        if merkle_root.len() != 32 {
            return Err("merkle_root must be 32 bytes");
        }
        if is_zero_address(&merkle_root) {
            return Err("merkle_root must not be all zeros");
        }
        if manifest_cid.len() == 0 {
            return Err("empty manifest_cid");
        }
        if env.block_epoch > u64::MAX - MINIMUM_CLAIM_WINDOW_EPOCHS || expiry_epoch < env.block_epoch + MINIMUM_CLAIM_WINDOW_EPOCHS {
            return Err("expiry_epoch must be at least MINIMUM_CLAIM_WINDOW_EPOCHS from now");
        }
        if self.distributions.contains_key(&distribution_id) {
            return Err("distribution already exists");
        }
        if !bytes_eq(&payment.token_id, &self.come_token_id) {
            return Err("must pay with COME token");
        }
        if payment.amount.is_zero() {
            return Err("must fund with positive amount");
        }
        let record = DistributionRecord {
            distribution_id: copy_bytes(&distribution_id),
            issuer: copy_bytes(&env.caller),
            merkle_root,
            snapshot_block,
            manifest_cid,
            total_amount_scaled: payment.amount.copy(),
            total_claimed_scaled: BigAmount::zero(),
            expiry_epoch,
            funded_at: env.block_timestamp,
            reclaimed: false,
        };
        let event = IncomeDistributionEvent::DistributionFunded { distribution_id: copy_bytes(&distribution_id), total_amount: payment.amount.copy() };
        self.distributions.insert(distribution_id, record);
        Ok(event)
    }

    /// A holder claims the amount that the distribution's Merkle root
    /// proves for them (at most 64 proof levels), once, before expiry, and
    /// is paid in COME.
    fn claim_yield(
        &mut self,
        env: &BlockchainEnv,
        distribution_id: Vec<u8>,
        amount_scaled: BigAmount,
        merkle_proof: Vec<Vec<u8>>,
        sc_balance: BigAmount,
    ) -> (r: Result<(Vec<Transfer>, IncomeDistributionEvent), &'static str>)
        ensures
            merkle_proof@.len() > MAX_MERKLE_PROOF_DEPTH ==> r == Err::<(Vec<Transfer>, IncomeDistributionEvent), &'static str>("MERKLE_PROOF_TOO_DEEP")
                && *final(self) == *old(self),
            merkle_proof@.len() <= MAX_MERKLE_PROOF_DEPTH ==> old(self).claim_outcome(
                env,
                distribution_id@,
                amount_scaled,
                merkle_proof@.len(),
                claim_root(distribution_id@, env.caller@, amount_scaled@, proof_views(merkle_proof@)),
                sc_balance,
                r,
                *final(self),
            ),
    {
        if merkle_proof.len() > MAX_MERKLE_PROOF_DEPTH {
            return Err("MERKLE_PROOF_TOO_DEEP");
        }
        let root = compute_claim_root(&distribution_id, &env.caller, &amount_scaled, &merkle_proof);
        self.record_claim(env, distribution_id, amount_scaled, merkle_proof.len(), &root, sc_balance)
    }

    fn pause_distribution(&mut self, env: &BlockchainEnv, distribution_id: Vec<u8>) -> (r: Result<IncomeDistributionEvent, &'static str>)
        ensures
            old(self).auth_error(env) is Some ==> r == Err::<IncomeDistributionEvent, &'static str>(old(self).auth_error(env)->0) && *final(self) == *old(self),
            old(self).auth_error(env) is None ==> (r matches Ok(IncomeDistributionEvent::DistributionPaused { distribution_id: i }) && i@ == distribution_id@)
                && final(self).distribution_paused@ == old(self).distribution_paused@.insert(distribution_id@, ())
                && *final(self) == (IncomeDistributionState { distribution_paused: final(self).distribution_paused, ..*old(self) }),
    {
        if let Err(e) = self.gov.require_governance_or_owner(env) {
            return Err(e);
        }
        let event = IncomeDistributionEvent::DistributionPaused { distribution_id: copy_bytes(&distribution_id) };
        self.distribution_paused.insert(distribution_id, ());
        Ok(event)
    }

    fn unpause_distribution(&mut self, env: &BlockchainEnv, distribution_id: Vec<u8>) -> (r: Result<IncomeDistributionEvent, &'static str>)
        ensures
            old(self).auth_error(env) is Some ==> r == Err::<IncomeDistributionEvent, &'static str>(old(self).auth_error(env)->0) && *final(self) == *old(self),
            old(self).auth_error(env) is None ==> (r matches Ok(IncomeDistributionEvent::DistributionUnpaused { distribution_id: i }) && i@ == distribution_id@)
                && final(self).distribution_paused@ == old(self).distribution_paused@.remove(distribution_id@)
                && *final(self) == (IncomeDistributionState { distribution_paused: final(self).distribution_paused, ..*old(self) }),
    {
        if let Err(e) = self.gov.require_governance_or_owner(env) {
            return Err(e);
        }
        self.distribution_paused.remove(&distribution_id);
        Ok(IncomeDistributionEvent::DistributionUnpaused { distribution_id })
    }

    /// After expiry, returns the unclaimed rest to the issuer, as far as
    /// the contract's COME balance covers it; any shortfall is recorded.
    fn reclaim_expired(&mut self, env: &BlockchainEnv, distribution_id: Vec<u8>, sc_balance: BigAmount) -> (r: Result<(Vec<Transfer>, Vec<IncomeDistributionEvent>), &'static str>)
        ensures
            ({
                let d = old(self).distributions@[distribution_id@];
                let unclaimed = d.total_amount_scaled@ - d.total_claimed_scaled@;
                let paid = if unclaimed <= sc_balance@ { unclaimed } else { sc_balance@ as int };
                let e = if old(self).auth_error(env) is Some {
                    old(self).auth_error(env)
                } else if !old(self).distributions@.contains_key(distribution_id@) {
                    Some("distribution not found")
                } else if env.block_epoch <= d.expiry_epoch {
                    Some("distribution not yet expired")
                } else if d.reclaimed {
                    Some("already reclaimed")
                } else {
                    None
                };
                match e {
                    Some(m) => r == Err::<(Vec<Transfer>, Vec<IncomeDistributionEvent>), &'static str>(m) && *final(self) == *old(self),
                    None => {
                        &&& r matches Ok((t, evs)) && (if paid > 0 {
                            t@.len() == 1 && t@[0].to@ == d.issuer@ && t@[0].token_id@ == old(self).come_token_id@ && t@[0].amount@ == paid
                        } else {
                            t@.len() == 0
                        }) && reclaim_events(evs@, distribution_id@, unclaimed, sc_balance)
                        &&& final(self).distributions@ == old(self).distributions@.insert(distribution_id@, DistributionRecord { reclaimed: true, ..d })
                        &&& final(self).reclaim_shortfall@ == (if sc_balance@ < unclaimed {
                            old(self).reclaim_shortfall@.insert(distribution_id@, final(self).reclaim_shortfall@[distribution_id@])
                        } else {
                            old(self).reclaim_shortfall@
                        })
                        &&& sc_balance@ < unclaimed ==> final(self).reclaim_shortfall@[distribution_id@]@ == unclaimed - sc_balance@
                        &&& *final(self) == (IncomeDistributionState {
                            distributions: final(self).distributions,
                            reclaim_shortfall: final(self).reclaim_shortfall,
                            ..*old(self)
                        })
                    },
                }
            }),
    {
        if let Err(e) = self.gov.require_governance_or_owner(env) {
            return Err(e);
        }
        let (expiry, reclaimed, unclaimed, issuer) = match self.distributions.get(&distribution_id) {
            None => {
                return Err("distribution not found");
            },
            Some(d) => (d.expiry_epoch, d.reclaimed, d.total_amount_scaled.minus(&d.total_claimed_scaled), copy_bytes(&d.issuer)),
        };
        if env.block_epoch <= expiry {
            return Err("distribution not yet expired");
        }
        if reclaimed {
            return Err("already reclaimed");
        }
        let ghost k = distribution_id@;
        let taken = self.distributions.take(&distribution_id);
        match taken {
            Some(d) => {
                self.distributions.insert(copy_bytes(&distribution_id), DistributionRecord { reclaimed: true, ..d });
                assert(self.distributions@ =~= old(self).distributions@.insert(k, DistributionRecord { reclaimed: true, ..old(self).distributions@[k] }));
            },
            None => {},
        }
        let mut transfers: Vec<Transfer> = Vec::new();
        let mut events: Vec<IncomeDistributionEvent> = Vec::new();
        if !unclaimed.is_zero() {
            let covered = unclaimed.at_most(&sc_balance);
            let transfer_amount = if covered { unclaimed.copy() } else { sc_balance.copy() };
            if !covered {
                let shortfall = unclaimed.minus(&sc_balance);
                self.reclaim_shortfall.insert(copy_bytes(&distribution_id), shortfall.copy());
                events.push(IncomeDistributionEvent::ShortfallDetected {
                    distribution_id: copy_bytes(&distribution_id),
                    expected_amount: unclaimed,
                    actual_amount: sc_balance,
                    shortfall,
                });
            }
            if !transfer_amount.is_zero() {
                transfers.push(Transfer { to: issuer, token_id: copy_bytes(&self.come_token_id), amount: transfer_amount });
            }
        }
        events.push(IncomeDistributionEvent::DistributionReclaimed { distribution_id });
        Ok((transfers, events))
    }

    /// Governance pays (part of) a recorded shortfall in COME; it is
    /// forwarded to the issuer and the shortfall shrinks accordingly.
    fn recover_shortfall(&mut self, env: &BlockchainEnv, distribution_id: Vec<u8>, payment: &Payment) -> (r: Result<(Vec<Transfer>, IncomeDistributionEvent), &'static str>)
        ensures
            ({
                let d = old(self).distributions@[distribution_id@];
                let sf = old(self).shortfall(distribution_id@);
                let e = if old(self).auth_error(env) is Some {
                    old(self).auth_error(env)
                } else if !old(self).distributions@.contains_key(distribution_id@) {
                    Some("distribution not found")
                } else if sf == 0 {
                    Some("NO_SHORTFALL: no shortfall recorded for this distribution")
                } else if payment.token_id@ != old(self).come_token_id@ {
                    Some("must pay with COME token")
                } else if payment.amount@ == 0 {
                    Some("must recover with positive amount")
                } else if payment.amount@ > sf {
                    Some("RECOVERY_EXCEEDS_SHORTFALL: payment exceeds recorded shortfall")
                } else {
                    None
                };
                match e {
                    Some(m) => r == Err::<(Vec<Transfer>, IncomeDistributionEvent), &'static str>(m) && *final(self) == *old(self),
                    None => {
                        &&& r matches Ok((t, ev)) && t@.len() == 1 && t@[0].to@ == d.issuer@ && t@[0].token_id@ == old(self).come_token_id@
                            && t@[0].amount@ == payment.amount@
                            && (ev matches IncomeDistributionEvent::ShortfallRecovered { distribution_id: i, recovered_amount }
                            && i@ == distribution_id@ && recovered_amount@ == payment.amount@)
                        &&& final(self).reclaim_shortfall@ == (if sf - payment.amount@ > 0 {
                            old(self).reclaim_shortfall@.insert(distribution_id@, final(self).reclaim_shortfall@[distribution_id@])
                        } else {
                            old(self).reclaim_shortfall@.remove(distribution_id@)
                        })
                        &&& sf - payment.amount@ > 0 ==> final(self).reclaim_shortfall@[distribution_id@]@ == sf - payment.amount@
                        &&& *final(self) == (IncomeDistributionState { reclaim_shortfall: final(self).reclaim_shortfall, ..*old(self) })
                    },
                }
            }),
    {
        if let Err(e) = self.gov.require_governance_or_owner(env) {
            return Err(e);
        }
        let issuer = match self.distributions.get(&distribution_id) {
            None => {
                return Err("distribution not found");
            },
            Some(d) => copy_bytes(&d.issuer),
        };
        let shortfall = match self.reclaim_shortfall.get(&distribution_id) {
            Some(v) => v.copy(),
            None => BigAmount::zero(),
        };
        if shortfall.is_zero() {
            return Err("NO_SHORTFALL: no shortfall recorded for this distribution");
        }
        if !bytes_eq(&payment.token_id, &self.come_token_id) {
            return Err("must pay with COME token");
        }
        if payment.amount.is_zero() {
            return Err("must recover with positive amount");
        }
        if !payment.amount.at_most(&shortfall) {
            return Err("RECOVERY_EXCEEDS_SHORTFALL: payment exceeds recorded shortfall");
        }
        let new_shortfall = shortfall.minus(&payment.amount);
        if !new_shortfall.is_zero() {
            self.reclaim_shortfall.insert(copy_bytes(&distribution_id), new_shortfall);
        } else {
            self.reclaim_shortfall.remove(&distribution_id);
        }
        let mut transfers: Vec<Transfer> = Vec::new();
        transfers.push(Transfer { to: issuer, token_id: copy_bytes(&self.come_token_id), amount: payment.amount.copy() });
        Ok((transfers, IncomeDistributionEvent::ShortfallRecovered { distribution_id, recovered_amount: payment.amount.copy() }))
    }
}

impl IncomeDistributionState {
    pub fn get_distribution(&self, distribution_id: &[u8]) -> (r: Option<&DistributionRecord>)
        requires
            self.wf(),
        ensures
            match r {
                Some(d) => self.distributions@.contains_key(distribution_id@) && *d == self.distributions@[distribution_id@],
                None => !self.distributions@.contains_key(distribution_id@),
            },
    {
        self.distributions.get(distribution_id)
    }

    pub fn is_claimed(&self, distribution_id: &[u8], holder: &[u8]) -> (r: bool)
        requires
            self.wf(),
        ensures
            r == self.claimed@.contains_key(key2(distribution_id@, holder@)),
    {
        self.claimed.contains_key(&make_key2(distribution_id, holder))
    }

    /// Epochs left before the distribution expires (0 when unknown or past).
    pub fn get_claim_window(&self, env: &BlockchainEnv, distribution_id: &[u8]) -> (r: u64)
        requires
            self.wf(),
        ensures
            r == (if self.distributions@.contains_key(distribution_id@) && env.block_epoch < self.distributions@[distribution_id@].expiry_epoch {
                self.distributions@[distribution_id@].expiry_epoch - env.block_epoch
            } else {
                0
            }),
    {
        match self.distributions.get(distribution_id) {
            Some(d) => {
                if env.block_epoch >= d.expiry_epoch {
                    0
                } else {
                    d.expiry_epoch - env.block_epoch
                }
            },
            None => 0,
        }
    }

    pub fn get_reclaim_shortfall(&self, distribution_id: &[u8]) -> (r: BigAmount)
        requires
            self.wf(),
        ensures
            r@ == self.shortfall(distribution_id@),
    {
        match self.reclaim_shortfall.get(distribution_id) {
            Some(v) => v.copy(),
            None => BigAmount::zero(),
        }
    }

    pub fn get_storage_version(&self) -> (r: u32)
        ensures
            r == self.storage_version,
    {
        self.storage_version
    }
}

/// A holder's second claim on a distribution is always refused, and no
/// claim takes the claimed total past the funded total.
pub proof fn lemma_claims_once_and_within_funding(
    s: IncomeDistributionState,
    env: BlockchainEnv,
    distribution_id: Seq<u8>,
    amount_scaled: BigAmount,
    proof_len: nat,
    proven_root: Seq<u8>,
    sc_balance: BigAmount,
)
    requires
        s.wf(),
    ensures
        s.claimed@.contains_key(key2(distribution_id, env.caller@)) ==> s.claim_error(&env, distribution_id, amount_scaled,
            proof_len, proven_root, sc_balance) is Some,
        s.claim_error(&env, distribution_id, amount_scaled, proof_len, proven_root, sc_balance) is None ==> s.distributions@[distribution_id].total_claimed_scaled@
            + amount_scaled@ <= s.distributions@[distribution_id].total_amount_scaled@,
{
}

/// Claim accounting: in a valid state each funded distribution's claimed
/// total is the sum of the amounts its holders have claimed, and a claim
/// keeps the two equal: when it goes through it adds exactly its amount to
/// its own distribution's sum and nothing to any other's.
pub proof fn lemma_claimed_total_is_sum_of_claims(
    s: IncomeDistributionState,
    after: IncomeDistributionState,
    env: BlockchainEnv,
    distribution_id: Seq<u8>,
    amount_scaled: BigAmount,
    proof_len: nat,
    proven_root: Seq<u8>,
    sc_balance: BigAmount,
    r: Result<(Vec<Transfer>, IncomeDistributionEvent), &'static str>,
    e: Seq<u8>,
)
    requires
        s.wf(),
        s.claim_outcome(&env, distribution_id, amount_scaled, proof_len, proven_root, sc_balance, r, after),
        s.distributions@.contains_key(e),
    ensures
        s.distributions@[e].total_claimed_scaled@ == claimed_total(s.claimed@, e),
        after.distributions@.contains_key(e),
        after.distributions@[e].total_claimed_scaled@ == claimed_total(after.claimed@, e),
        r is Ok ==> claimed_total(after.claimed@, e) == claimed_total(s.claimed@, e) + (if e == distribution_id {
            amount_scaled@ as int
        } else {
            0
        }),
{
    assert(claimed_total(s.claimed@, e) == s.distributions@[e].total_claimed_scaled@ as int);
    if s.claim_error(&env, distribution_id, amount_scaled, proof_len, proven_root, sc_balance) is None {
        s.claimed.lemma_finite();
        assert(s.distributions@.contains_key(distribution_id));
        lemma_claimed_total_insert(s.claimed@, distribution_id, env.caller@, amount_scaled, e);
    }
}

} // verus!
