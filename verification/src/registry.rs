//! On-chain MRV registry: report proofs, methodology versions, projects,
//! evidence, verification cases, issuance lots, execution bundles and
//! verification statements. Every mutation needs the owner or the active
//! governance.
use vstd::prelude::*;

use crate::bytes::{lemma_ascii_lit, lit, bytes_eq, copy_bytes, is_zero_address, key2, key3, make_key2, make_key3, u64_be, zero_address};
use crate::env::BlockchainEnv;
use crate::mrv_common::{period_key, MrvGovernanceModule, MrvGovernanceState, MrvReportProof};
use crate::table::Table;

verus! {

/// Versioned methodology record with approval lifecycle and supersession tracking.
pub struct MethodologyRecord {
    pub methodology_id: Vec<u8>,
    pub version_label: Vec<u8>,
    pub pack_digest: Vec<u8>,
    pub approval_status: Vec<u8>,
    pub effective_from: u64,
    pub effective_to: u64,
    pub superseded_by: Vec<u8>,
}

/// MRV project record linking a tenant, asset, reporting period, and methodology.
pub struct ProjectRecord {
    pub project_id: Vec<u8>,
    pub tenant_id: Vec<u8>,
    pub asset_id: Vec<u8>,
    pub reporting_period_id: Vec<u8>,
    pub methodology_id: Vec<u8>,
    pub status: Vec<u8>,
}

/// Content-addressed evidence record anchored to an entity.
pub struct EvidenceRecord {
    pub evidence_id: Vec<u8>,
    pub entity_type: Vec<u8>,
    pub entity_id: Vec<u8>,
    pub evidence_hash: Vec<u8>,
    pub manifest_hash: Vec<u8>,
    pub submitted_at: u64,
}

/// Verification case tracking VVB assignment, status transitions, and attestation.
pub struct VerificationCaseRecord {
    pub case_id: Vec<u8>,
    pub target_type: Vec<u8>,
    pub target_id: Vec<u8>,
    pub status: Vec<u8>,
    pub assignee: Vec<u8>,
    pub verifier_statement_hash: Vec<u8>,
    pub verifier_attestation_ref: Vec<u8>,
    pub updated_at: u64,
}

/// Issuance lot record following a `minted -> retired | reversed` lifecycle.
pub struct IssuanceLotRecord {
    pub lot_id: Vec<u8>,
    pub project_id: Vec<u8>,
    pub verification_case_id: Vec<u8>,
    pub vintage: u64,
    pub quantity: Vec<u8>,
    pub status: Vec<u8>,
    pub replacement_for_lot_id: Vec<u8>,
    pub reversed_amount: Vec<u8>,
}

/// Event payload of the legacy `mrvReportAnchored` event (never emitted now).
pub struct MrvReportAnchoredEventPayload {
    pub report_hash: Vec<u8>,
    pub hash_algo: Vec<u8>,
    pub canonicalization: Vec<u8>,
    pub methodology_version: u64,
    pub anchored_at: u64,
}

/// Event payload of `mrvReportAnchoredV2`.
pub struct MrvReportAnchoredV2EventPayload {
    pub report_hash: Vec<u8>,
    pub hash_algo: Vec<u8>,
    pub canonicalization: Vec<u8>,
    pub methodology_version: u64,
    pub anchored_at: u64,
    pub public_project_id: Vec<u8>,
    pub evidence_manifest_hash: Vec<u8>,
}

/// Event payload of `mrvReportAmendedV2`.
pub struct MrvReportAmendedV2EventPayload {
    pub report_hash: Vec<u8>,
    pub hash_algo: Vec<u8>,
    pub canonicalization: Vec<u8>,
    pub methodology_version: u64,
    pub anchored_at: u64,
    pub public_project_id: Vec<u8>,
    pub evidence_manifest_hash: Vec<u8>,
}

/// Event payload of `mrvMethodologyRegistered`.
pub struct MethodologyRegisteredEventPayload {
    pub pack_digest: Vec<u8>,
    pub approval_status: Vec<u8>,
    pub effective_from: u64,
    pub effective_to: u64,
}

/// Event payload of `mrvMethodologySuperseded`.
pub struct MethodologySupersededEventPayload {
    pub replacement_version_label: Vec<u8>,
    pub effective_to: u64,
}

/// Event payload of `mrvProjectRegistered`.
pub struct ProjectRegisteredEventPayload {
    pub asset_id: Vec<u8>,
    pub reporting_period_id: Vec<u8>,
    pub methodology_id: Vec<u8>,
    pub status: Vec<u8>,
}

/// Event payload of `mrvEvidenceRegistered`.
pub struct EvidenceRegisteredEventPayload {
    pub evidence_hash: Vec<u8>,
    pub manifest_hash: Vec<u8>,
    pub submitted_at: u64,
}

/// Event payload of `mrvVerificationCaseUpdated`.
pub struct VerificationCaseUpdatedEventPayload {
    pub status: Vec<u8>,
    pub assignee: Vec<u8>,
    pub verifier_statement_hash: Vec<u8>,
    pub verifier_attestation_ref: Vec<u8>,
    pub updated_at: u64,
}

/// Event payload of `mrvIssuanceLotCreated`.
pub struct IssuanceLotCreatedEventPayload {
    pub vintage: u64,
    pub quantity: Vec<u8>,
    pub replacement_for_lot_id: Vec<u8>,
}

/// Event payload of `mrvIssuanceLotReversed`.
pub struct IssuanceLotReversedEventPayload {
    pub reversed_amount: Vec<u8>,
    pub replacement_lot_id: Vec<u8>,
}

/// Event payload of `mrvMethodologyStatusChanged`.
#[derive(Debug, PartialEq, Eq)]
pub struct MethodologyStatusChangedEvent {
    pub methodology_id: Vec<u8>,
    pub version_label: Vec<u8>,
    pub approval_status: Vec<u8>,
}

/// Event payload of `mrvProjectStatusChanged`.
#[derive(Debug, PartialEq, Eq)]
pub struct ProjectStatusChangedEvent {
    pub project_id: Vec<u8>,
    pub status: Vec<u8>,
}

/// Event payload of `mrvVerificationCaseCreated`.
#[derive(Debug, PartialEq, Eq)]
pub struct VerificationCaseCreatedEvent {
    pub case_id: Vec<u8>,
    pub target_type: Vec<u8>,
    pub target_id: Vec<u8>,
}

/// Event payload of `mrvIssuanceLotRetired`.
#[derive(Debug, PartialEq, Eq)]
pub struct IssuanceLotRetiredEvent {
    pub lot_id: Vec<u8>,
}

/// Event payload of `mrvExecutionBundleCommitted`.
#[derive(Debug, PartialEq, Eq)]
pub struct ExecutionBundleCommittedEvent {
    pub pai_id: Vec<u8>,
    pub bundle_cid: Vec<u8>,
    pub bundle_hash: Vec<u8>,
}

/// Event payload of `mrvVerificationStatementSubmitted`.
#[derive(Debug, PartialEq, Eq)]
pub struct VerificationStatementSubmittedEvent {
    pub pai_id: Vec<u8>,
    pub vvb_did: Vec<u8>,
    pub statement_cid: Vec<u8>,
    pub outcome: Vec<u8>,
}

/// Event payload of `mrvVerifierAdjustmentSubmitted`.
#[derive(Debug, PartialEq, Eq)]
pub struct VerifierAdjustmentSubmittedEvent {
    pub pai_id: Vec<u8>,
    pub adjustment_cid: Vec<u8>,
}

/// Execution bundle committed for a PAI monitoring period.
pub struct ExecutionBundleRecord {
    pub pai_id: Vec<u8>,
    pub monitoring_period_n: u64,
    pub bundle_cid: Vec<u8>,
    pub bundle_hash: Vec<u8>,
    pub committed_at: u64,
}

/// Verification statement submitted for a PAI monitoring period.
pub struct VerificationStatementRecord {
    pub pai_id: Vec<u8>,
    pub monitoring_period_n: u64,
    pub vvb_did: Vec<u8>,
    pub statement_cid: Vec<u8>,
    pub outcome: Vec<u8>,
    pub submitted_at: u64,
}

/// Post-verification adjustment submitted after the initial statement.
pub struct VerifierAdjustmentRecord {
    pub pai_id: Vec<u8>,
    pub monitoring_period_n: u64,
    pub adjustment_cid: Vec<u8>,
    pub sequence: u64,
    pub submitted_at: u64,
}

impl EvidenceRecord {
    pub open spec fn same(&self, o: &EvidenceRecord) -> bool {
        &&& self.evidence_id@ == o.evidence_id@
        &&& self.entity_type@ == o.entity_type@
        &&& self.entity_id@ == o.entity_id@
        &&& self.evidence_hash@ == o.evidence_hash@
        &&& self.manifest_hash@ == o.manifest_hash@
        &&& self.submitted_at == o.submitted_at
    }

    pub fn is_same(&self, o: &EvidenceRecord) -> (r: bool)
        ensures
            r == self.same(o),
    {
        bytes_eq(&self.evidence_id, &o.evidence_id) && bytes_eq(&self.entity_type, &o.entity_type) && bytes_eq(
            &self.entity_id,
            &o.entity_id,
        ) && bytes_eq(&self.evidence_hash, &o.evidence_hash) && bytes_eq(&self.manifest_hash, &o.manifest_hash)
            && self.submitted_at == o.submitted_at
    }
}

impl IssuanceLotRecord {
    pub open spec fn same(&self, o: &IssuanceLotRecord) -> bool {
        &&& self.lot_id@ == o.lot_id@
        &&& self.project_id@ == o.project_id@
        &&& self.verification_case_id@ == o.verification_case_id@
        &&& self.vintage == o.vintage
        &&& self.quantity@ == o.quantity@
        &&& self.status@ == o.status@
        &&& self.replacement_for_lot_id@ == o.replacement_for_lot_id@
        &&& self.reversed_amount@ == o.reversed_amount@
    }

    pub fn is_same(&self, o: &IssuanceLotRecord) -> (r: bool)
        ensures
            r == self.same(o),
    {
        bytes_eq(&self.lot_id, &o.lot_id) && bytes_eq(&self.project_id, &o.project_id) && bytes_eq(
            &self.verification_case_id,
            &o.verification_case_id,
        ) && self.vintage == o.vintage && bytes_eq(&self.quantity, &o.quantity) && bytes_eq(
            &self.status,
            &o.status,
        ) && bytes_eq(&self.replacement_for_lot_id, &o.replacement_for_lot_id) && bytes_eq(
            &self.reversed_amount,
            &o.reversed_amount,
        )
    }
}

// ── verification-case state machine ─────────────────────────────────────

/// The allowed verification-case transitions:
/// `pending_assignment` → `assigned` | `rejected`;
/// `assigned` → `in_review` | `needs_more_information` | `approved` | `rejected` | `escalated`;
/// `in_review` → `needs_more_information` | `approved` | `rejected` | `escalated`;
/// `needs_more_information` → `assigned`;
/// `escalated` → `assigned` | `approved` | `rejected`.
pub open spec fn valid_verification_transition(current: Seq<u8>, next: Seq<u8>) -> bool {
    ||| (current == lit("pending_assignment") && (next == lit("assigned") || next == lit("rejected")))
    ||| (current == lit("assigned") && (next == lit("in_review") || next == lit("needs_more_information")
        || next == lit("approved") || next == lit("rejected") || next == lit("escalated")))
    ||| (current == lit("in_review") && (next == lit("needs_more_information") || next == lit("approved")
        || next == lit("rejected") || next == lit("escalated")))
    ||| (current == lit("needs_more_information") && next == lit("assigned"))
    ||| (current == lit("escalated") && (next == lit("assigned") || next == lit("approved") || next == lit("rejected")))
}

pub fn is_valid_verification_transition(current: &[u8], next: &[u8]) -> (r: bool)
    ensures
        r == valid_verification_transition(current@, next@),
{
    let pending = "pending_assignment".as_bytes();
    let assigned = "assigned".as_bytes();
    let in_review = "in_review".as_bytes();
    let nmi = "needs_more_information".as_bytes();
    let approved = "approved".as_bytes();
    let rejected = "rejected".as_bytes();
    let escalated = "escalated".as_bytes();
    (bytes_eq(current, pending) && (bytes_eq(next, assigned) || bytes_eq(next, rejected)))
        || (bytes_eq(current, assigned) && (bytes_eq(next, in_review) || bytes_eq(next, nmi) || bytes_eq(next, approved)
        || bytes_eq(next, rejected) || bytes_eq(next, escalated)))
        || (bytes_eq(current, in_review) && (bytes_eq(next, nmi) || bytes_eq(next, approved) || bytes_eq(next, rejected)
        || bytes_eq(next, escalated)))
        || (bytes_eq(current, nmi) && bytes_eq(next, assigned))
        || (bytes_eq(current, escalated) && (bytes_eq(next, assigned) || bytes_eq(next, approved) || bytes_eq(next, rejected)))
}

/// The review lifecycle of a verification case, edge by edge: a case
/// waiting for assignment is assigned or rejected; an assigned case goes
/// into review, back for more information, or is decided or escalated; a
/// case under review is decided, escalated or sent back for more
/// information; a case needing information is assigned again; an
/// escalated case is reassigned or decided. No other change of status is
/// allowed.
pub proof fn lemma_verification_transition_table(current: Seq<u8>, next: Seq<u8>)
    ensures
        valid_verification_transition(lit("pending_assignment"), lit("assigned")),
        valid_verification_transition(lit("pending_assignment"), lit("rejected")),
        valid_verification_transition(lit("assigned"), lit("in_review")),
        valid_verification_transition(lit("assigned"), lit("needs_more_information")),
        valid_verification_transition(lit("assigned"), lit("approved")),
        valid_verification_transition(lit("assigned"), lit("rejected")),
        valid_verification_transition(lit("assigned"), lit("escalated")),
        valid_verification_transition(lit("in_review"), lit("needs_more_information")),
        valid_verification_transition(lit("in_review"), lit("approved")),
        valid_verification_transition(lit("in_review"), lit("rejected")),
        valid_verification_transition(lit("in_review"), lit("escalated")),
        valid_verification_transition(lit("needs_more_information"), lit("assigned")),
        valid_verification_transition(lit("escalated"), lit("assigned")),
        valid_verification_transition(lit("escalated"), lit("approved")),
        valid_verification_transition(lit("escalated"), lit("rejected")),
        valid_verification_transition(current, next) ==> {
            ||| (current == lit("pending_assignment") && next == lit("assigned"))
            ||| (current == lit("pending_assignment") && next == lit("rejected"))
            ||| (current == lit("assigned") && next == lit("in_review"))
            ||| (current == lit("assigned") && next == lit("needs_more_information"))
            ||| (current == lit("assigned") && next == lit("approved"))
            ||| (current == lit("assigned") && next == lit("rejected"))
            ||| (current == lit("assigned") && next == lit("escalated"))
            ||| (current == lit("in_review") && next == lit("needs_more_information"))
            ||| (current == lit("in_review") && next == lit("approved"))
            ||| (current == lit("in_review") && next == lit("rejected"))
            ||| (current == lit("in_review") && next == lit("escalated"))
            ||| (current == lit("needs_more_information") && next == lit("assigned"))
            ||| (current == lit("escalated") && next == lit("assigned"))
            ||| (current == lit("escalated") && next == lit("approved"))
            ||| (current == lit("escalated") && next == lit("rejected"))
        },
{
}

/// `approved` and `rejected` are terminal: no transition leaves them, and
/// no transition returns a case to `pending_assignment`.
pub proof fn lemma_verification_terminal_states(next: Seq<u8>)
    ensures
        !valid_verification_transition(lit("approved"), next),
        !valid_verification_transition(lit("rejected"), next),
        forall|c: Seq<u8>| !valid_verification_transition(c, lit("pending_assignment")),
{
    reveal_strlit("approved");
    reveal_strlit("rejected");
    reveal_strlit("pending_assignment");
    reveal_strlit("assigned");
    reveal_strlit("in_review");
    reveal_strlit("needs_more_information");
    reveal_strlit("escalated");
    lemma_ascii_lit("approved");
    lemma_ascii_lit("rejected");
    lemma_ascii_lit("pending_assignment");
    lemma_ascii_lit("assigned");
    lemma_ascii_lit("in_review");
    lemma_ascii_lit("needs_more_information");
    lemma_ascii_lit("escalated");
    // first bytes: a p r p a i n e; second bytes tell `approved` from `assigned`
    assert(lit("approved")[1] != lit("assigned")[1]);
    assert(lit("approved")[0] != lit("pending_assignment")[0]);
    assert(lit("approved")[0] != lit("in_review")[0]);
    assert(lit("approved")[0] != lit("needs_more_information")[0]);
    assert(lit("approved")[0] != lit("escalated")[0]);
    assert(lit("rejected")[0] != lit("pending_assignment")[0]);
    assert(lit("rejected")[0] != lit("assigned")[0]);
    assert(lit("rejected")[0] != lit("in_review")[0]);
    assert(lit("rejected")[0] != lit("needs_more_information")[0]);
    assert(lit("rejected")[0] != lit("escalated")[0]);
    assert(lit("pending_assignment")[0] != lit("assigned")[0]);
    assert(lit("pending_assignment")[0] != lit("rejected")[0]);
    assert(lit("pending_assignment")[0] != lit("in_review")[0]);
    assert(lit("pending_assignment")[0] != lit("needs_more_information")[0]);
    assert(lit("pending_assignment")[0] != lit("approved")[0]);
    assert(lit("pending_assignment")[0] != lit("escalated")[0]);
}

// ── record descriptions ─────────────────────────────────────────────────

impl MethodologyRecord {
    /// The record holds exactly these field contents.
    pub open spec fn describes(
        &self,
        methodology_id: Seq<u8>,
        version_label: Seq<u8>,
        pack_digest: Seq<u8>,
        approval_status: Seq<u8>,
        effective_from: u64,
        effective_to: u64,
        superseded_by: Seq<u8>,
    ) -> bool {
        &&& self.methodology_id@ == methodology_id
        &&& self.version_label@ == version_label
        &&& self.pack_digest@ == pack_digest
        &&& self.approval_status@ == approval_status
        &&& self.effective_from == effective_from
        &&& self.effective_to == effective_to
        &&& self.superseded_by@ == superseded_by
    }
}

impl ProjectRecord {
    /// The record holds exactly these field contents.
    pub open spec fn describes(
        &self,
        project_id: Seq<u8>,
        tenant_id: Seq<u8>,
        asset_id: Seq<u8>,
        reporting_period_id: Seq<u8>,
        methodology_id: Seq<u8>,
        status: Seq<u8>,
    ) -> bool {
        &&& self.project_id@ == project_id
        &&& self.tenant_id@ == tenant_id
        &&& self.asset_id@ == asset_id
        &&& self.reporting_period_id@ == reporting_period_id
        &&& self.methodology_id@ == methodology_id
        &&& self.status@ == status
    }
}

impl VerificationCaseRecord {
    /// The record holds exactly these field contents.
    pub open spec fn describes(
        &self,
        case_id: Seq<u8>,
        target_type: Seq<u8>,
        target_id: Seq<u8>,
        status: Seq<u8>,
        assignee: Seq<u8>,
        verifier_statement_hash: Seq<u8>,
        verifier_attestation_ref: Seq<u8>,
        updated_at: u64,
    ) -> bool {
        &&& self.case_id@ == case_id
        &&& self.target_type@ == target_type
        &&& self.target_id@ == target_id
        &&& self.status@ == status
        &&& self.assignee@ == assignee
        &&& self.verifier_statement_hash@ == verifier_statement_hash
        &&& self.verifier_attestation_ref@ == verifier_attestation_ref
        &&& self.updated_at == updated_at
    }
}

impl IssuanceLotRecord {
    /// The record holds exactly these field contents.
    pub open spec fn describes(
        &self,
        lot_id: Seq<u8>,
        project_id: Seq<u8>,
        verification_case_id: Seq<u8>,
        vintage: u64,
        quantity: Seq<u8>,
        status: Seq<u8>,
        replacement_for_lot_id: Seq<u8>,
        reversed_amount: Seq<u8>,
    ) -> bool {
        &&& self.lot_id@ == lot_id
        &&& self.project_id@ == project_id
        &&& self.verification_case_id@ == verification_case_id
        &&& self.vintage == vintage
        &&& self.quantity@ == quantity
        &&& self.status@ == status
        &&& self.replacement_for_lot_id@ == replacement_for_lot_id
        &&& self.reversed_amount@ == reversed_amount
    }
}

// ── contract state ──────────────────────────────────────────────────────

/// The storage of the MRV registry. Composite storage keys are the
/// framework's nested encodings of the key tuples (`key2`, `key3`); a
/// monitoring period enters a key as its 8-byte big-endian encoding.
pub struct RegistryState {
    pub gov: MrvGovernanceState,
    /// Report proofs by report id.
    pub report_proofs: Table<MrvReportProof>,
    /// Report id by `key3(tenant, farm, season)`.
    pub proof_by_season: Table<Vec<u8>>,
    /// Methodology records by `key2(methodology_id, version_label)`.
    pub methodology_records: Table<MethodologyRecord>,
    pub project_records: Table<ProjectRecord>,
    pub evidence_records: Table<EvidenceRecord>,
    pub verification_cases: Table<VerificationCaseRecord>,
    /// Version counter per case id; an absent entry reads as `0`.
    pub verification_case_version: Table<u64>,
    pub issuance_lots: Table<IssuanceLotRecord>,
    pub accredited_vvbs: Table<()>,
    /// Execution bundles by `key2(pai_id, u64_be(period))`.
    pub execution_bundles: Table<ExecutionBundleRecord>,
    /// Verification statements by `key2(pai_id, u64_be(period))`.
    pub verification_statements: Table<VerificationStatementRecord>,
    /// Adjustments by `key3(pai_id, u64_be(period), u64_be(sequence))`.
    pub verifier_adjustments: Table<VerifierAdjustmentRecord>,
    /// Adjustment count by `key2(pai_id, u64_be(period))`; absent reads as `0`.
    pub verifier_adjustment_count: Table<u64>,
    pub storage_version: u32,
}

/// The storage key under which a report proof's season is bound.
pub open spec fn season_key_of(p: MrvReportProof) -> Seq<u8> {
    key3(p.public_tenant_id@, p.public_farm_id@, p.public_season_id@)
}

/// Whether an amendment to `p` moves the report to another
/// `(tenant, farm, season)` than the stored proof `old` has.
pub open spec fn season_moves(old: MrvReportProof, p: MrvReportProof) -> bool {
    !(old.public_tenant_id@ == p.public_tenant_id@ && old.public_farm_id@ == p.public_farm_id@
        && old.public_season_id@ == p.public_season_id@)
}

/// The field rules of a report proof, in the order the contract checks them.
pub open spec fn report_fields_rule(
    report_id: Seq<u8>,
    public_tenant_id: Seq<u8>,
    public_farm_id: Seq<u8>,
    public_season_id: Seq<u8>,
    public_project_id: Seq<u8>,
    report_hash: Seq<u8>,
    hash_algo: Seq<u8>,
    canonicalization: Seq<u8>,
    methodology_version: u64,
    anchored_at: u64,
    evidence_manifest_hash: Seq<u8>,
) -> Option<&'static str> {
    if report_id.len() == 0 {
        Some("empty report id")
    } else if public_tenant_id.len() == 0 {
        Some("empty public tenant id")
    } else if public_farm_id.len() == 0 {
        Some("empty public farm id")
    } else if public_season_id.len() == 0 {
        Some("empty public season id")
    } else if public_project_id.len() == 0 {
        Some("empty public project id")
    } else if report_hash.len() == 0 {
        Some("empty report hash")
    } else if hash_algo.len() == 0 {
        Some("empty hash algo")
    } else if canonicalization.len() == 0 {
        Some("empty canonicalization")
    } else if methodology_version == 0 {
        Some("invalid methodology version")
    } else if anchored_at == 0 {
        Some("invalid anchored at")
    } else if evidence_manifest_hash.len() == 0 {
        Some("empty evidence manifest hash")
    } else {
        None
    }
}

/// A stored proof passed the field rules when it was written.
pub open spec fn proof_fields_valid(p: MrvReportProof) -> bool {
    report_fields_rule(p.report_id@, p.public_tenant_id@, p.public_farm_id@, p.public_season_id@,
        p.public_project_id@, p.report_hash@, p.hash_algo@, p.canonicalization@, p.methodology_version,
        p.anchored_at, p.evidence_manifest_hash@) is None
}

pub open spec fn lot_status_valid(status: Seq<u8>) -> bool {
    status == lit("minted") || status == lit("retired") || status == lit("reversed")
}

impl RegistryState {
    /// Tables are well formed; the season index and the report proofs are
    /// two views of one binding (each proof's season is bound to it, and
    /// each bound season names a proof of that season); every issuance lot
    /// is `minted`, `retired` or `reversed`.
    pub open spec fn wf(&self) -> bool {
        &&& self.report_proofs.wf()
        &&& self.proof_by_season.wf()
        &&& self.methodology_records.wf()
        &&& self.project_records.wf()
        &&& self.evidence_records.wf()
        &&& self.verification_cases.wf()
        &&& self.verification_case_version.wf()
        &&& self.issuance_lots.wf()
        &&& self.accredited_vvbs.wf()
        &&& self.execution_bundles.wf()
        &&& self.verification_statements.wf()
        &&& self.verifier_adjustments.wf()
        &&& self.verifier_adjustment_count.wf()
        &&& forall|rid: Seq<u8>| #[trigger] self.report_proofs@.contains_key(rid) ==> {
            &&& self.report_proofs@[rid].report_id@ == rid
            &&& proof_fields_valid(self.report_proofs@[rid])
            &&& self.proof_by_season@.contains_key(season_key_of(self.report_proofs@[rid]))
            &&& self.proof_by_season@[season_key_of(self.report_proofs@[rid])]@ == rid
        }
        &&& forall|k: Seq<u8>| #[trigger] self.proof_by_season@.contains_key(k) ==> {
            &&& self.report_proofs@.contains_key(self.proof_by_season@[k]@)
            &&& season_key_of(self.report_proofs@[self.proof_by_season@[k]@]) == k
        }
        &&& forall|l: Seq<u8>| #[trigger] self.issuance_lots@.contains_key(l) ==> lot_status_valid(self.issuance_lots@[l].status@)
    }

    pub open spec fn auth_error(&self, env: &BlockchainEnv) -> Option<&'static str> {
        self.gov.governance_or_owner_error(env.caller@, env.owner@)
    }

    pub open spec fn case_version(&self, case_id: Seq<u8>) -> u64 {
        if self.verification_case_version@.contains_key(case_id) { self.verification_case_version@[case_id] } else { 0 }
    }

    pub open spec fn adjustment_count(&self, pai_id: Seq<u8>, period: u64) -> u64 {
        let k = key2(pai_id, u64_be(period));
        if self.verifier_adjustment_count@.contains_key(k) { self.verifier_adjustment_count@[k] } else { 0 }
    }

    /// Every storage group other than those flagged is unchanged.
    pub open spec fn agrees_except(
        &self,
        o: &Self,
        proofs: bool,
        methodologies: bool,
        projects: bool,
        evidence: bool,
        cases: bool,
        lots: bool,
        vvbs: bool,
        bundles: bool,
        statements: bool,
        adjustments: bool,
    ) -> bool {
        &&& self.gov == o.gov
        &&& self.storage_version == o.storage_version
        &&& (proofs || (self.report_proofs == o.report_proofs && self.proof_by_season == o.proof_by_season))
        &&& (methodologies || self.methodology_records == o.methodology_records)
        &&& (projects || self.project_records == o.project_records)
        &&& (evidence || self.evidence_records == o.evidence_records)
        &&& (cases || (self.verification_cases == o.verification_cases
            && self.verification_case_version == o.verification_case_version))
        &&& (lots || self.issuance_lots == o.issuance_lots)
        &&& (vvbs || self.accredited_vvbs == o.accredited_vvbs)
        &&& (bundles || self.execution_bundles == o.execution_bundles)
        &&& (statements || self.verification_statements == o.verification_statements)
        &&& (adjustments || (self.verifier_adjustments == o.verifier_adjustments
            && self.verifier_adjustment_count == o.verifier_adjustment_count))
    }

    pub open spec fn register_methodology_error(
        &self,
        env: &BlockchainEnv,
        methodology_id: Seq<u8>,
        version_label: Seq<u8>,
        pack_digest: Seq<u8>,
        approval_status: Seq<u8>,
        effective_from: u64,
        effective_to: u64,
    ) -> Option<&'static str> {
        let k = key2(methodology_id, version_label);
        if self.auth_error(env) is Some {
            self.auth_error(env)
        } else if methodology_id.len() == 0 {
            Some("empty methodology id")
        } else if version_label.len() == 0 {
            Some("empty version label")
        } else if pack_digest.len() == 0 {
            Some("empty pack digest")
        } else if approval_status.len() == 0 {
            Some("empty approval status")
        } else if effective_from == 0 {
            Some("invalid effective from")
        } else if !(effective_to == 0 || effective_to >= effective_from) {
            Some("invalid effective window")
        } else if self.methodology_records@.contains_key(k) && self.methodology_records@[k].pack_digest@ != pack_digest {
            Some("conflicting methodology record")
        } else if self.methodology_records@.contains_key(k) && self.methodology_records@[k].approval_status@ != approval_status {
            Some("conflicting methodology status")
        } else {
            None
        }
    }

    pub open spec fn set_methodology_approval_status_error(
        &self,
        env: &BlockchainEnv,
        methodology_id: Seq<u8>,
        version_label: Seq<u8>,
        approval_status: Seq<u8>,
    ) -> Option<&'static str> {
        if self.auth_error(env) is Some {
            self.auth_error(env)
        } else if methodology_id.len() == 0 {
            Some("empty methodology id")
        } else if version_label.len() == 0 {
            Some("empty version label")
        } else if approval_status.len() == 0 {
            Some("empty approval status")
        } else if !self.methodology_records@.contains_key(key2(methodology_id, version_label)) {
            Some("ENTITY_NOT_FOUND: methodology_record")
        } else {
            None
        }
    }

    pub open spec fn supersede_methodology_error(
        &self,
        env: &BlockchainEnv,
        methodology_id: Seq<u8>,
        version_label: Seq<u8>,
        replacement_version_label: Seq<u8>,
        effective_to: u64,
    ) -> Option<&'static str> {
        if self.auth_error(env) is Some {
            self.auth_error(env)
        } else if methodology_id.len() == 0 {
            Some("empty methodology id")
        } else if version_label.len() == 0 {
            Some("empty version label")
        } else if replacement_version_label.len() == 0 {
            Some("empty replacement version label")
        } else if effective_to == 0 {
            Some("invalid supersession effective to")
        } else if !self.methodology_records@.contains_key(key2(methodology_id, version_label)) {
            Some("ENTITY_NOT_FOUND: methodology_record")
        } else {
            None
        }
    }

    pub open spec fn register_project_error(
        &self,
        env: &BlockchainEnv,
        project_id: Seq<u8>,
        tenant_id: Seq<u8>,
        asset_id: Seq<u8>,
        reporting_period_id: Seq<u8>,
        methodology_id: Seq<u8>,
        status: Seq<u8>,
    ) -> Option<&'static str> {
        let cur = self.project_records@[project_id];
        if self.auth_error(env) is Some {
            self.auth_error(env)
        } else if project_id.len() == 0 {
            Some("empty project id")
        } else if tenant_id.len() == 0 {
            Some("empty tenant id")
        } else if asset_id.len() == 0 {
            Some("empty asset id")
        } else if reporting_period_id.len() == 0 {
            Some("empty reporting period id")
        } else if methodology_id.len() == 0 {
            Some("empty methodology id")
        } else if status.len() == 0 {
            Some("empty project status")
        } else if self.project_records@.contains_key(project_id) && !(cur.tenant_id@ == tenant_id
            && cur.asset_id@ == asset_id && cur.reporting_period_id@ == reporting_period_id
            && cur.methodology_id@ == methodology_id) {
            Some("conflicting project record")
        } else {
            None
        }
    }

    pub open spec fn set_project_status_error(&self, env: &BlockchainEnv, project_id: Seq<u8>, status: Seq<u8>) -> Option<&'static str> {
        if self.auth_error(env) is Some {
            self.auth_error(env)
        } else if project_id.len() == 0 {
            Some("empty project id")
        } else if status.len() == 0 {
            Some("empty project status")
        } else if !self.project_records@.contains_key(project_id) {
            Some("ENTITY_NOT_FOUND: project_record")
        } else {
            None
        }
    }

    pub open spec fn register_evidence_error(
        &self,
        env: &BlockchainEnv,
        evidence_id: Seq<u8>,
        entity_type: Seq<u8>,
        entity_id: Seq<u8>,
        evidence_hash: Seq<u8>,
        manifest_hash: Seq<u8>,
        submitted_at: u64,
    ) -> Option<&'static str> {
        let cur = self.evidence_records@[evidence_id];
        if self.auth_error(env) is Some {
            self.auth_error(env)
        } else if evidence_id.len() == 0 {
            Some("empty evidence id")
        } else if entity_type.len() == 0 {
            Some("empty entity type")
        } else if entity_id.len() == 0 {
            Some("empty entity id")
        } else if evidence_hash.len() == 0 {
            Some("empty evidence hash")
        } else if manifest_hash.len() == 0 {
            Some("empty manifest hash")
        } else if submitted_at == 0 {
            Some("invalid submitted at")
        } else if self.evidence_records@.contains_key(evidence_id) && !(cur.evidence_id@ == evidence_id
            && cur.entity_type@ == entity_type && cur.entity_id@ == entity_id && cur.evidence_hash@ == evidence_hash
            && cur.manifest_hash@ == manifest_hash && cur.submitted_at == submitted_at) {
            Some("conflicting evidence record")
        } else {
            None
        }
    }

    pub open spec fn create_verification_case_error(
        &self,
        env: &BlockchainEnv,
        case_id: Seq<u8>,
        target_type: Seq<u8>,
        target_id: Seq<u8>,
        assignee: Seq<u8>,
        updated_at: u64,
    ) -> Option<&'static str> {
        if self.auth_error(env) is Some {
            self.auth_error(env)
        } else if case_id.len() == 0 {
            Some("empty case id")
        } else if target_type.len() == 0 {
            Some("empty target type")
        } else if target_id.len() == 0 {
            Some("empty target id")
        } else if assignee == zero_address() {
            Some("empty assignee")
        } else if updated_at == 0 {
            Some("invalid updated at")
        } else if self.verification_cases@.contains_key(case_id) {
            Some("verification case already exists")
        } else {
            None
        }
    }

    pub open spec fn update_verification_case_error(
        &self,
        env: &BlockchainEnv,
        case_id: Seq<u8>,
        status: Seq<u8>,
        assignee: Seq<u8>,
        updated_at: u64,
    ) -> Option<&'static str> {
        if self.auth_error(env) is Some {
            self.auth_error(env)
        } else if case_id.len() == 0 {
            Some("empty case id")
        } else if status.len() == 0 {
            Some("empty verification status")
        } else if assignee == zero_address() {
            Some("empty assignee")
        } else if updated_at == 0 {
            Some("invalid updated at")
        } else if !self.verification_cases@.contains_key(case_id) {
            Some("ENTITY_NOT_FOUND: verification_case")
        } else if !valid_verification_transition(self.verification_cases@[case_id].status@, status) {
            Some("invalid verification transition")
        } else if self.case_version(case_id) == u64::MAX {
            Some("verification case version overflow")
        } else {
            None
        }
    }

    pub open spec fn create_issuance_lot_error(
        &self,
        env: &BlockchainEnv,
        lot_id: Seq<u8>,
        project_id: Seq<u8>,
        verification_case_id: Seq<u8>,
        vintage: u64,
        quantity: Seq<u8>,
        replacement_for_lot_id: Seq<u8>,
    ) -> Option<&'static str> {
        let cur = self.issuance_lots@[lot_id];
        if self.auth_error(env) is Some {
            self.auth_error(env)
        } else if lot_id.len() == 0 {
            Some("empty lot id")
        } else if project_id.len() == 0 {
            Some("empty project id")
        } else if verification_case_id.len() == 0 {
            Some("empty verification case id")
        } else if vintage == 0 {
            Some("invalid vintage")
        } else if quantity.len() == 0 {
            Some("empty quantity")
        } else if self.issuance_lots@.contains_key(lot_id) && cur.status@ == lit("reversed") {
            Some("REVERSED_LOT_CANNOT_BE_REINSERTED: lot was reversed and cannot be re-created")
        } else if self.issuance_lots@.contains_key(lot_id) && !cur.describes(
            lot_id,
            project_id,
            verification_case_id,
            vintage,
            quantity,
            lit("minted"),
            replacement_for_lot_id,
            Seq::empty(),
        ) {
            Some("conflicting issuance lot")
        } else {
            None
        }
    }

    pub open spec fn report_fields_error(
        &self,
        env: &BlockchainEnv,
        report_id: Seq<u8>,
        public_tenant_id: Seq<u8>,
        public_farm_id: Seq<u8>,
        public_season_id: Seq<u8>,
        public_project_id: Seq<u8>,
        report_hash: Seq<u8>,
        hash_algo: Seq<u8>,
        canonicalization: Seq<u8>,
        methodology_version: u64,
        anchored_at: u64,
        evidence_manifest_hash: Seq<u8>,
    ) -> Option<&'static str> {
        if self.auth_error(env) is Some {
            self.auth_error(env)
        } else {
            report_fields_rule(report_id, public_tenant_id, public_farm_id, public_season_id, public_project_id,
                report_hash, hash_algo, canonicalization, methodology_version, anchored_at, evidence_manifest_hash)
        }
    }

    /// Why an anchoring of `p` fails, if it does: a field rule, a season
    /// already bound to another report, or a different proof under the id.
    pub open spec fn anchor_report_error(&self, env: &BlockchainEnv, p: MrvReportProof) -> Option<&'static str> {
        if self.report_fields_error(env, p.report_id@, p.public_tenant_id@, p.public_farm_id@, p.public_season_id@,
            p.public_project_id@, p.report_hash@, p.hash_algo@, p.canonicalization@, p.methodology_version,
            p.anchored_at, p.evidence_manifest_hash@) is Some {
            self.report_fields_error(env, p.report_id@, p.public_tenant_id@, p.public_farm_id@, p.public_season_id@,
                p.public_project_id@, p.report_hash@, p.hash_algo@, p.canonicalization@, p.methodology_version,
                p.anchored_at, p.evidence_manifest_hash@)
        } else if !self.report_proofs@.contains_key(p.report_id@) {
            if self.proof_by_season@.contains_key(season_key_of(p)) {
                Some("SEASON_PROOF_ALREADY_EXISTS: this (tenant,farm,season) already has an anchored report — use amendReportV2 to update")
            } else {
                None
            }
        } else if !self.report_proofs@[p.report_id@].same(&p) {
            Some("conflicting report proof")
        } else {
            None
        }
    }

    /// Why an amendment to `p` fails, if it does.
    pub open spec fn amend_report_error(&self, env: &BlockchainEnv, p: MrvReportProof) -> Option<&'static str> {
        let nk = season_key_of(p);
        if self.report_fields_error(env, p.report_id@, p.public_tenant_id@, p.public_farm_id@, p.public_season_id@,
            p.public_project_id@, p.report_hash@, p.hash_algo@, p.canonicalization@, p.methodology_version,
            p.anchored_at, p.evidence_manifest_hash@) is Some {
            self.report_fields_error(env, p.report_id@, p.public_tenant_id@, p.public_farm_id@, p.public_season_id@,
                p.public_project_id@, p.report_hash@, p.hash_algo@, p.canonicalization@, p.methodology_version,
                p.anchored_at, p.evidence_manifest_hash@)
        } else if !self.report_proofs@.contains_key(p.report_id@) {
            Some("missing proof")
        } else if season_moves(self.report_proofs@[p.report_id@], p) && self.proof_by_season@.contains_key(nk)
            && self.proof_by_season@[nk]@ != p.report_id@ {
            Some("season already bound to a different report")
        } else {
            None
        }
    }

    pub open spec fn commit_execution_bundle_error(
        &self,
        env: &BlockchainEnv,
        pai_id: Seq<u8>,
        monitoring_period_n: u64,
        bundle_cid: Seq<u8>,
        bundle_hash: Seq<u8>,
    ) -> Option<&'static str> {
        if self.auth_error(env) is Some {
            self.auth_error(env)
        } else if pai_id.len() == 0 {
            Some("empty pai_id")
        } else if monitoring_period_n == 0 {
            Some("invalid monitoring_period_n")
        } else if bundle_cid.len() == 0 {
            Some("empty bundle_cid")
        } else if bundle_hash.len() != 32 {
            Some("bundle_hash must be 32 bytes (SHA-256)")
        } else if self.execution_bundles@.contains_key(key2(pai_id, u64_be(monitoring_period_n))) {
            Some("execution bundle already committed for this PAI/period")
        } else {
            None
        }
    }

    pub open spec fn submit_verification_statement_error(
        &self,
        env: &BlockchainEnv,
        pai_id: Seq<u8>,
        monitoring_period_n: u64,
        vvb_did: Seq<u8>,
        statement_cid: Seq<u8>,
        outcome: Seq<u8>,
    ) -> Option<&'static str> {
        let k = key2(pai_id, u64_be(monitoring_period_n));
        if self.auth_error(env) is Some {
            self.auth_error(env)
        } else if pai_id.len() == 0 {
            Some("empty pai_id")
        } else if monitoring_period_n == 0 {
            Some("invalid monitoring_period_n")
        } else if vvb_did == zero_address() {
            Some("empty vvb_did")
        } else if statement_cid.len() == 0 {
            Some("empty statement_cid")
        } else if !(outcome == lit("approved") || outcome == lit("rejected") || outcome == lit("needs_more_information")) {
            Some("outcome must be approved, rejected, or needs_more_information")
        } else if !self.accredited_vvbs@.contains_key(vvb_did) {
            Some("VVB_NOT_ACCREDITED: vvb_did must be registered via registerAccreditedVvb")
        } else if !self.execution_bundles@.contains_key(k) {
            Some("execution bundle not committed for this PAI/period")
        } else if self.verification_statements@.contains_key(k) {
            Some("STATEMENT_ALREADY_SUBMITTED: use submitVerifierAdjustment for corrections")
        } else {
            None
        }
    }

    pub open spec fn submit_verifier_adjustment_error(
        &self,
        env: &BlockchainEnv,
        pai_id: Seq<u8>,
        monitoring_period_n: u64,
        adjustment_cid: Seq<u8>,
    ) -> Option<&'static str> {
        if self.auth_error(env) is Some {
            self.auth_error(env)
        } else if pai_id.len() == 0 {
            Some("empty pai_id")
        } else if monitoring_period_n == 0 {
            Some("invalid monitoring_period_n")
        } else if adjustment_cid.len() == 0 {
            Some("empty adjustment_cid")
        } else if !self.verification_statements@.contains_key(key2(pai_id, u64_be(monitoring_period_n))) {
            Some("verification statement not submitted for this PAI/period")
        } else if self.adjustment_count(pai_id, monitoring_period_n) == u64::MAX {
            Some("verifier adjustment count overflow")
        } else {
            None
        }
    }

    pub open spec fn retire_issuance_lot_error(&self, env: &BlockchainEnv, lot_id: Seq<u8>) -> Option<&'static str> {
        if self.auth_error(env) is Some {
            self.auth_error(env)
        } else if lot_id.len() == 0 {
            Some("empty lot id")
        } else if !self.issuance_lots@.contains_key(lot_id) {
            Some("ENTITY_NOT_FOUND: issuance_lot")
        } else if self.issuance_lots@[lot_id].status@ != lit("minted") {
            Some("lot not eligible for retirement")
        } else {
            None
        }
    }

    pub open spec fn reverse_issuance_lot_error(&self, env: &BlockchainEnv, lot_id: Seq<u8>, reversed_amount: Seq<u8>) -> Option<&'static str> {
        if self.auth_error(env) is Some {
            self.auth_error(env)
        } else if lot_id.len() == 0 {
            Some("empty lot id")
        } else if reversed_amount.len() == 0 {
            Some("empty reversed amount")
        } else if !self.issuance_lots@.contains_key(lot_id) {
            Some("ENTITY_NOT_FOUND: issuance_lot")
        } else if !(self.issuance_lots@[lot_id].status@ == lit("minted") || self.issuance_lots@[lot_id].status@ == lit("retired")) {
            Some("lot not eligible for reversal")
        } else {
            None
        }
    }
}

/// The field rules shared by `anchor_report_v2` and `amend_report_v2`, in
/// the order the contract checks them.
fn report_fields_check(
    report_id: &Vec<u8>,
    public_tenant_id: &Vec<u8>,
    public_farm_id: &Vec<u8>,
    public_season_id: &Vec<u8>,
    public_project_id: &Vec<u8>,
    report_hash: &Vec<u8>,
    hash_algo: &Vec<u8>,
    canonicalization: &Vec<u8>,
    methodology_version: u64,
    anchored_at: u64,
    evidence_manifest_hash: &Vec<u8>,
) -> (r: Result<(), &'static str>)
    ensures
        match report_fields_rule(report_id@, public_tenant_id@, public_farm_id@, public_season_id@, public_project_id@,
            report_hash@, hash_algo@, canonicalization@, methodology_version, anchored_at, evidence_manifest_hash@) {
            Some(e) => r == Err::<(), &'static str>(e),
            None => r is Ok,
        },
{
    if report_id.len() == 0 {
        return Err("empty report id");
    }
    if public_tenant_id.len() == 0 {
        return Err("empty public tenant id");
    }
    if public_farm_id.len() == 0 {
        return Err("empty public farm id");
    }
    if public_season_id.len() == 0 {
        return Err("empty public season id");
    }
    if public_project_id.len() == 0 {
        return Err("empty public project id");
    }
    if report_hash.len() == 0 {
        return Err("empty report hash");
    }
    if hash_algo.len() == 0 {
        return Err("empty hash algo");
    }
    if canonicalization.len() == 0 {
        return Err("empty canonicalization");
    }
    if methodology_version == 0 {
        return Err("invalid methodology version");
    }
    if anchored_at == 0 {
        return Err("invalid anchored at");
    }
    if evidence_manifest_hash.len() == 0 {
        return Err("empty evidence manifest hash");
    }
    Ok(())
}

/// The endpoints and views of the MRV registry. Every mutation needs
/// the owner or the active governance.
pub trait MrvRegistry: Sized {
    spec fn valid(&self) -> bool;

    fn init(env: &BlockchainEnv, governance: Vec<u8>) -> (r: Result<Self, &'static str>)
        ensures
            r matches Ok(s) ==> s.valid();

    fn register_methodology(
        &mut self,
        env: &BlockchainEnv,
        methodology_id: Vec<u8>,
        version_label: Vec<u8>,
        pack_digest: Vec<u8>,
        approval_status: Vec<u8>,
        effective_from: u64,
        effective_to: u64,
    ) -> (r: Result<Option<MethodologyRegisteredEventPayload>, &'static str>)
        requires old(self).valid(), ensures final(self).valid();

    fn set_methodology_approval_status(
        &mut self,
        env: &BlockchainEnv,
        methodology_id: Vec<u8>,
        version_label: Vec<u8>,
        approval_status: Vec<u8>,
    ) -> (r: Result<MethodologyStatusChangedEvent, &'static str>)
        requires old(self).valid(), ensures final(self).valid();

    fn supersede_methodology(
        &mut self,
        env: &BlockchainEnv,
        methodology_id: Vec<u8>,
        version_label: Vec<u8>,
        replacement_version_label: Vec<u8>,
        effective_to: u64,
    ) -> (r: Result<MethodologySupersededEventPayload, &'static str>)
        requires old(self).valid(), ensures final(self).valid();

    fn register_project(
        &mut self,
        env: &BlockchainEnv,
        project_id: Vec<u8>,
        tenant_id: Vec<u8>,
        asset_id: Vec<u8>,
        reporting_period_id: Vec<u8>,
        methodology_id: Vec<u8>,
        status: Vec<u8>,
    ) -> (r: Result<Option<ProjectRegisteredEventPayload>, &'static str>)
        requires old(self).valid(), ensures final(self).valid();

    fn set_project_status(&mut self, env: &BlockchainEnv, project_id: Vec<u8>, status: Vec<u8>) -> (r: Result<ProjectStatusChangedEvent, &'static str>)
        requires old(self).valid(), ensures final(self).valid();

    fn register_evidence(
        &mut self,
        env: &BlockchainEnv,
        evidence_id: Vec<u8>,
        entity_type: Vec<u8>,
        entity_id: Vec<u8>,
        evidence_hash: Vec<u8>,
        manifest_hash: Vec<u8>,
        submitted_at: u64,
    ) -> (r: Result<Option<EvidenceRegisteredEventPayload>, &'static str>)
        requires old(self).valid(), ensures final(self).valid();

    fn create_verification_case(
        &mut self,
        env: &BlockchainEnv,
        case_id: Vec<u8>,
        target_type: Vec<u8>,
        target_id: Vec<u8>,
        assignee: Vec<u8>,
        updated_at: u64,
    ) -> (r: Result<VerificationCaseCreatedEvent, &'static str>)
        requires old(self).valid(), ensures final(self).valid();

    fn update_verification_case(
        &mut self,
        env: &BlockchainEnv,
        case_id: Vec<u8>,
        status: Vec<u8>,
        assignee: Vec<u8>,
        verifier_statement_hash: Vec<u8>,
        verifier_attestation_ref: Vec<u8>,
        updated_at: u64,
    ) -> (r: Result<VerificationCaseUpdatedEventPayload, &'static str>)
        requires old(self).valid(), ensures final(self).valid();

    fn create_issuance_lot(
        &mut self,
        env: &BlockchainEnv,
        lot_id: Vec<u8>,
        project_id: Vec<u8>,
        verification_case_id: Vec<u8>,
        vintage: u64,
        quantity: Vec<u8>,
        replacement_for_lot_id: Vec<u8>,
    ) -> (r: Result<Option<IssuanceLotCreatedEventPayload>, &'static str>)
        requires old(self).valid(), ensures final(self).valid();

    fn retire_issuance_lot(&mut self, env: &BlockchainEnv, lot_id: Vec<u8>) -> (r: Result<IssuanceLotRetiredEvent, &'static str>)
        requires old(self).valid(), ensures final(self).valid();

    fn reverse_issuance_lot(
        &mut self,
        env: &BlockchainEnv,
        lot_id: Vec<u8>,
        reversed_amount: Vec<u8>,
        replacement_lot_id: Vec<u8>,
    ) -> (r: Result<IssuanceLotReversedEventPayload, &'static str>)
        requires old(self).valid(), ensures final(self).valid();

    fn anchor_report_v2(
        &mut self,
        env: &BlockchainEnv,
        report_id: Vec<u8>,
        public_tenant_id: Vec<u8>,
        public_farm_id: Vec<u8>,
        public_season_id: Vec<u8>,
        public_project_id: Vec<u8>,
        report_hash: Vec<u8>,
        hash_algo: Vec<u8>,
        canonicalization: Vec<u8>,
        methodology_version: u64,
        anchored_at: u64,
        evidence_manifest_hash: Vec<u8>,
    ) -> (r: Result<Option<MrvReportAnchoredV2EventPayload>, &'static str>)
        requires old(self).valid(), ensures final(self).valid();

    fn amend_report_v2(
        &mut self,
        env: &BlockchainEnv,
        report_id: Vec<u8>,
        public_tenant_id: Vec<u8>,
        public_farm_id: Vec<u8>,
        public_season_id: Vec<u8>,
        public_project_id: Vec<u8>,
        report_hash: Vec<u8>,
        hash_algo: Vec<u8>,
        canonicalization: Vec<u8>,
        methodology_version: u64,
        anchored_at: u64,
        evidence_manifest_hash: Vec<u8>,
    ) -> (r: Result<MrvReportAmendedV2EventPayload, &'static str>)
        requires old(self).valid(), ensures final(self).valid();

    fn register_accredited_vvb(&mut self, env: &BlockchainEnv, vvb_did: Vec<u8>) -> (r: Result<(), &'static str>)
        requires old(self).valid(), ensures final(self).valid();

    fn deregister_accredited_vvb(&mut self, env: &BlockchainEnv, vvb_did: Vec<u8>) -> (r: Result<(), &'static str>)
        requires old(self).valid(), ensures final(self).valid();

    fn is_vvb_accredited(&self, vvb_did: &[u8]) -> bool
        requires self.valid();

    fn commit_execution_bundle(
        &mut self,
        env: &BlockchainEnv,
        pai_id: Vec<u8>,
        monitoring_period_n: u64,
        bundle_cid: Vec<u8>,
        bundle_hash: Vec<u8>,
    ) -> (r: Result<ExecutionBundleCommittedEvent, &'static str>)
        requires old(self).valid(), ensures final(self).valid();

    fn submit_verification_statement(
        &mut self,
        env: &BlockchainEnv,
        pai_id: Vec<u8>,
        monitoring_period_n: u64,
        vvb_did: Vec<u8>,
        statement_cid: Vec<u8>,
        outcome: Vec<u8>,
    ) -> (r: Result<VerificationStatementSubmittedEvent, &'static str>)
        requires old(self).valid(), ensures final(self).valid();

    fn submit_verifier_adjustment(
        &mut self,
        env: &BlockchainEnv,
        pai_id: Vec<u8>,
        monitoring_period_n: u64,
        adjustment_cid: Vec<u8>,
    ) -> (r: Result<VerifierAdjustmentSubmittedEvent, &'static str>)
        requires old(self).valid(), ensures final(self).valid();

    fn upgrade(&mut self)
        requires old(self).valid(), ensures final(self).valid();
}

impl MrvRegistry for RegistryState {
    open spec fn valid(&self) -> bool {
        self.wf()
    }

    fn init(env: &BlockchainEnv, governance: Vec<u8>) -> (r: Result<Self, &'static str>)
        ensures
            governance@ == zero_address() ==> r == Err::<Self, &'static str>("governance must not be zero"),
            governance@ != zero_address() ==> (r matches Ok(s) && {
                &&& s.wf()
                &&& s.gov.governance == Some(governance)
                &&& s.gov.pending_governance is None
                &&& s.report_proofs@ == Map::<Seq<u8>, MrvReportProof>::empty()
                &&& s.proof_by_season@ == Map::<Seq<u8>, Vec<u8>>::empty()
                &&& s.methodology_records@ == Map::<Seq<u8>, MethodologyRecord>::empty()
                &&& s.project_records@ == Map::<Seq<u8>, ProjectRecord>::empty()
                &&& s.evidence_records@ == Map::<Seq<u8>, EvidenceRecord>::empty()
                &&& s.verification_cases@ == Map::<Seq<u8>, VerificationCaseRecord>::empty()
                &&& s.verification_case_version@ == Map::<Seq<u8>, u64>::empty()
                &&& s.issuance_lots@ == Map::<Seq<u8>, IssuanceLotRecord>::empty()
                &&& s.accredited_vvbs@ == Map::<Seq<u8>, ()>::empty()
                &&& s.execution_bundles@ == Map::<Seq<u8>, ExecutionBundleRecord>::empty()
                &&& s.verification_statements@ == Map::<Seq<u8>, VerificationStatementRecord>::empty()
                &&& s.verifier_adjustments@ == Map::<Seq<u8>, VerifierAdjustmentRecord>::empty()
                &&& s.verifier_adjustment_count@ == Map::<Seq<u8>, u64>::empty()
                &&& s.storage_version == 1
            }),
    {
        if is_zero_address(&governance) {
            return Err("governance must not be zero");
        }
        Ok(RegistryState {
            gov: MrvGovernanceState::with_governance(governance),
            report_proofs: Table::new(),
            proof_by_season: Table::new(),
            methodology_records: Table::new(),
            project_records: Table::new(),
            evidence_records: Table::new(),
            verification_cases: Table::new(),
            verification_case_version: Table::new(),
            issuance_lots: Table::new(),
            accredited_vvbs: Table::new(),
            execution_bundles: Table::new(),
            verification_statements: Table::new(),
            verifier_adjustments: Table::new(),
            verifier_adjustment_count: Table::new(),
            storage_version: 1,
        })
    }

    /// Registers a methodology version. Re-registering the same digest and
    /// status changes nothing and emits nothing; other differences revert.
    fn register_methodology(
        &mut self,
        env: &BlockchainEnv,
        methodology_id: Vec<u8>,
        version_label: Vec<u8>,
        pack_digest: Vec<u8>,
        approval_status: Vec<u8>,
        effective_from: u64,
        effective_to: u64,
    ) -> (r: Result<Option<MethodologyRegisteredEventPayload>, &'static str>)
        ensures
            ({
                let k = key2(methodology_id@, version_label@);
                match old(self).register_methodology_error(env, methodology_id@, version_label@, pack_digest@,
                    approval_status@, effective_from, effective_to) {
                    Some(e) => r == Err::<Option<MethodologyRegisteredEventPayload>, &'static str>(e) && *final(self) == *old(self),
                    None => if old(self).methodology_records@.contains_key(k) {
                        r matches Ok(None) && *final(self) == *old(self)
                    } else {
                        &&& r matches Ok(Some(ev)) && ev.pack_digest@ == pack_digest@ && ev.approval_status@ == approval_status@
                            && ev.effective_from == effective_from && ev.effective_to == effective_to
                        &&& final(self).methodology_records@ == old(self).methodology_records@.insert(k, final(self).methodology_records@[k])
                        &&& final(self).methodology_records@[k].describes(methodology_id@, version_label@, pack_digest@,
                            approval_status@, effective_from, effective_to, Seq::empty())
                        &&& final(self).agrees_except(old(self), false, true, false, false, false, false, false, false, false, false)
                    },
                }
            }),
    {
        if let Err(e) = self.gov.require_governance_or_owner(env) {
            return Err(e);
        }
        if methodology_id.len() == 0 {
            return Err("empty methodology id");
        }
        if version_label.len() == 0 {
            return Err("empty version label");
        }
        if pack_digest.len() == 0 {
            return Err("empty pack digest");
        }
        if approval_status.len() == 0 {
            return Err("empty approval status");
        }
        if effective_from == 0 {
            return Err("invalid effective from");
        }
        if !(effective_to == 0 || effective_to >= effective_from) {
            return Err("invalid effective window");
        }
        let key = make_key2(&methodology_id, &version_label);
        if let Some(record) = self.methodology_records.get(&key) {
            if !bytes_eq(&record.pack_digest, &pack_digest) {
                return Err("conflicting methodology record");
            }
            if !bytes_eq(&record.approval_status, &approval_status) {
                return Err("conflicting methodology status");
            }
            return Ok(None);
        }
        let event = MethodologyRegisteredEventPayload {
            pack_digest: copy_bytes(&pack_digest),
            approval_status: copy_bytes(&approval_status),
            effective_from,
            effective_to,
        };
        let record = MethodologyRecord {
            methodology_id,
            version_label,
            pack_digest,
            approval_status,
            effective_from,
            effective_to,
            superseded_by: Vec::new(),
        };
        let ghost k = key@;
        self.methodology_records.insert(key, record);
        proof {
            assert(self.methodology_records@ =~= old(self).methodology_records@.insert(k, self.methodology_records@[k]));
        }
        Ok(Some(event))
    }

    /// Replaces the approval status of an existing methodology version.
    fn set_methodology_approval_status(
        &mut self,
        env: &BlockchainEnv,
        methodology_id: Vec<u8>,
        version_label: Vec<u8>,
        approval_status: Vec<u8>,
    ) -> (r: Result<MethodologyStatusChangedEvent, &'static str>)
        ensures
            ({
                let k = key2(methodology_id@, version_label@);
                let prev = old(self).methodology_records@[k];
                match old(self).set_methodology_approval_status_error(env, methodology_id@, version_label@, approval_status@) {
                    Some(e) => r == Err::<MethodologyStatusChangedEvent, &'static str>(e) && *final(self) == *old(self),
                    None => {
                        &&& r matches Ok(ev) && ev.methodology_id@ == methodology_id@ && ev.version_label@ == version_label@
                            && ev.approval_status@ == approval_status@
                        &&& final(self).methodology_records@ == old(self).methodology_records@.insert(k, final(self).methodology_records@[k])
                        &&& final(self).methodology_records@[k].describes(prev.methodology_id@, prev.version_label@,
                            prev.pack_digest@, approval_status@, prev.effective_from, prev.effective_to, prev.superseded_by@)
                        &&& final(self).agrees_except(old(self), false, true, false, false, false, false, false, false, false, false)
                    },
                }
            }),
    {
        if let Err(e) = self.gov.require_governance_or_owner(env) {
            return Err(e);
        }
        if methodology_id.len() == 0 {
            return Err("empty methodology id");
        }
        if version_label.len() == 0 {
            return Err("empty version label");
        }
        if approval_status.len() == 0 {
            return Err("empty approval status");
        }
        let key = make_key2(&methodology_id, &version_label);
        if !self.methodology_records.contains_key(&key) {
            return Err("ENTITY_NOT_FOUND: methodology_record");
        }
        let ghost k = key@;
        let event = MethodologyStatusChangedEvent {
            methodology_id,
            version_label,
            approval_status: copy_bytes(&approval_status),
        };
        let taken = self.methodology_records.take(&key);
        match taken {
            Some(record) => {
                let updated = MethodologyRecord { approval_status, ..record };
                self.methodology_records.insert(key, updated);
                proof {
                    assert(self.methodology_records@ =~= old(self).methodology_records@.insert(k, self.methodology_records@[k]));
                }
            },
            None => {},
        }
        Ok(event)
    }

    /// Marks a methodology version superseded: its status becomes
    /// `superseded`, with the replacement label and the end of validity.
    fn supersede_methodology(
        &mut self,
        env: &BlockchainEnv,
        methodology_id: Vec<u8>,
        version_label: Vec<u8>,
        replacement_version_label: Vec<u8>,
        effective_to: u64,
    ) -> (r: Result<MethodologySupersededEventPayload, &'static str>)
        ensures
            ({
                let k = key2(methodology_id@, version_label@);
                let prev = old(self).methodology_records@[k];
                match old(self).supersede_methodology_error(env, methodology_id@, version_label@, replacement_version_label@, effective_to) {
                    Some(e) => r == Err::<MethodologySupersededEventPayload, &'static str>(e) && *final(self) == *old(self),
                    None => {
                        &&& r matches Ok(ev) && ev.replacement_version_label@ == replacement_version_label@ && ev.effective_to == effective_to
                        &&& final(self).methodology_records@ == old(self).methodology_records@.insert(k, final(self).methodology_records@[k])
                        &&& final(self).methodology_records@[k].describes(prev.methodology_id@, prev.version_label@,
                            prev.pack_digest@, lit("superseded"), prev.effective_from, effective_to, replacement_version_label@)
                        &&& final(self).agrees_except(old(self), false, true, false, false, false, false, false, false, false, false)
                    },
                }
            }),
    {
        if let Err(e) = self.gov.require_governance_or_owner(env) {
            return Err(e);
        }
        if methodology_id.len() == 0 {
            return Err("empty methodology id");
        }
        if version_label.len() == 0 {
            return Err("empty version label");
        }
        if replacement_version_label.len() == 0 {
            return Err("empty replacement version label");
        }
        if effective_to == 0 {
            return Err("invalid supersession effective to");
        }
        let key = make_key2(&methodology_id, &version_label);
        if !self.methodology_records.contains_key(&key) {
            return Err("ENTITY_NOT_FOUND: methodology_record");
        }
        let event = MethodologySupersededEventPayload { replacement_version_label: copy_bytes(&replacement_version_label), effective_to };
        let ghost k = key@;
        let taken = self.methodology_records.take(&key);
        match taken {
            Some(record) => {
                let updated = MethodologyRecord {
                    effective_to,
                    superseded_by: replacement_version_label,
                    approval_status: copy_bytes("superseded".as_bytes()),
                    ..record
                };
                self.methodology_records.insert(key, updated);
                proof {
                    assert(self.methodology_records@ =~= old(self).methodology_records@.insert(k, self.methodology_records@[k]));
                }
            },
            None => {},
        }
        Ok(event)
    }

    /// Registers a project. Re-registering with the same tenant, asset,
    /// period and methodology changes nothing (the stored status stays);
    /// other differences revert.
    fn register_project(
        &mut self,
        env: &BlockchainEnv,
        project_id: Vec<u8>,
        tenant_id: Vec<u8>,
        asset_id: Vec<u8>,
        reporting_period_id: Vec<u8>,
        methodology_id: Vec<u8>,
        status: Vec<u8>,
    ) -> (r: Result<Option<ProjectRegisteredEventPayload>, &'static str>)
        ensures
            match old(self).register_project_error(env, project_id@, tenant_id@, asset_id@, reporting_period_id@,
                methodology_id@, status@) {
                Some(e) => r == Err::<Option<ProjectRegisteredEventPayload>, &'static str>(e) && *final(self) == *old(self),
                None => if old(self).project_records@.contains_key(project_id@) {
                    r matches Ok(None) && *final(self) == *old(self)
                } else {
                    &&& r matches Ok(Some(ev)) && ev.asset_id@ == asset_id@ && ev.reporting_period_id@ == reporting_period_id@
                        && ev.methodology_id@ == methodology_id@ && ev.status@ == status@
                    &&& final(self).project_records@ == old(self).project_records@.insert(project_id@, final(self).project_records@[project_id@])
                    &&& final(self).project_records@[project_id@].describes(project_id@, tenant_id@, asset_id@,
                        reporting_period_id@, methodology_id@, status@)
                    &&& final(self).agrees_except(old(self), false, false, true, false, false, false, false, false, false, false)
                },
            },
    {
        if let Err(e) = self.gov.require_governance_or_owner(env) {
            return Err(e);
        }
        if project_id.len() == 0 {
            return Err("empty project id");
        }
        if tenant_id.len() == 0 {
            return Err("empty tenant id");
        }
        if asset_id.len() == 0 {
            return Err("empty asset id");
        }
        if reporting_period_id.len() == 0 {
            return Err("empty reporting period id");
        }
        if methodology_id.len() == 0 {
            return Err("empty methodology id");
        }
        if status.len() == 0 {
            return Err("empty project status");
        }
        if let Some(current) = self.project_records.get(&project_id) {
            if !(bytes_eq(&current.tenant_id, &tenant_id) && bytes_eq(&current.asset_id, &asset_id) && bytes_eq(
                &current.reporting_period_id,
                &reporting_period_id,
            ) && bytes_eq(&current.methodology_id, &methodology_id)) {
                return Err("conflicting project record");
            }
            return Ok(None);
        }
        let event = ProjectRegisteredEventPayload {
            asset_id: copy_bytes(&asset_id),
            reporting_period_id: copy_bytes(&reporting_period_id),
            methodology_id: copy_bytes(&methodology_id),
            status: copy_bytes(&status),
        };
        let key = copy_bytes(&project_id);
        let record = ProjectRecord { project_id, tenant_id, asset_id, reporting_period_id, methodology_id, status };
        let ghost k = key@;
        self.project_records.insert(key, record);
        proof {
            assert(self.project_records@ =~= old(self).project_records@.insert(k, self.project_records@[k]));
        }
        Ok(Some(event))
    }

    /// Replaces the status of an existing project.
    fn set_project_status(&mut self, env: &BlockchainEnv, project_id: Vec<u8>, status: Vec<u8>) -> (r: Result<ProjectStatusChangedEvent, &'static str>)
        ensures
            ({
                let prev = old(self).project_records@[project_id@];
                match old(self).set_project_status_error(env, project_id@, status@) {
                    Some(e) => r == Err::<ProjectStatusChangedEvent, &'static str>(e) && *final(self) == *old(self),
                    None => {
                        &&& r matches Ok(ev) && ev.project_id@ == project_id@ && ev.status@ == status@
                        &&& final(self).project_records@ == old(self).project_records@.insert(project_id@, final(self).project_records@[project_id@])
                        &&& final(self).project_records@[project_id@].describes(prev.project_id@, prev.tenant_id@,
                            prev.asset_id@, prev.reporting_period_id@, prev.methodology_id@, status@)
                        &&& final(self).agrees_except(old(self), false, false, true, false, false, false, false, false, false, false)
                    },
                }
            }),
    {
        if let Err(e) = self.gov.require_governance_or_owner(env) {
            return Err(e);
        }
        if project_id.len() == 0 {
            return Err("empty project id");
        }
        if status.len() == 0 {
            return Err("empty project status");
        }
        if !self.project_records.contains_key(&project_id) {
            return Err("ENTITY_NOT_FOUND: project_record");
        }
        let ghost k = project_id@;
        let event = ProjectStatusChangedEvent { project_id: copy_bytes(&project_id), status: copy_bytes(&status) };
        let taken = self.project_records.take(&project_id);
        match taken {
            Some(record) => {
                let updated = ProjectRecord { status, ..record };
                self.project_records.insert(project_id, updated);
                proof {
                    assert(self.project_records@ =~= old(self).project_records@.insert(k, self.project_records@[k]));
                }
            },
            None => {},
        }
        Ok(event)
    }

    /// Registers an evidence record. Re-registering identical evidence
    /// changes nothing; any difference reverts.
    fn register_evidence(
        &mut self,
        env: &BlockchainEnv,
        evidence_id: Vec<u8>,
        entity_type: Vec<u8>,
        entity_id: Vec<u8>,
        evidence_hash: Vec<u8>,
        manifest_hash: Vec<u8>,
        submitted_at: u64,
    ) -> (r: Result<Option<EvidenceRegisteredEventPayload>, &'static str>)
        ensures
            match old(self).register_evidence_error(env, evidence_id@, entity_type@, entity_id@, evidence_hash@,
                manifest_hash@, submitted_at) {
                Some(e) => r == Err::<Option<EvidenceRegisteredEventPayload>, &'static str>(e) && *final(self) == *old(self),
                None => if old(self).evidence_records@.contains_key(evidence_id@) {
                    r matches Ok(None) && *final(self) == *old(self)
                } else {
                    &&& r matches Ok(Some(ev)) && ev.evidence_hash@ == evidence_hash@ && ev.manifest_hash@ == manifest_hash@
                        && ev.submitted_at == submitted_at
                    &&& final(self).evidence_records@ == old(self).evidence_records@.insert(
                        evidence_id@,
                        EvidenceRecord { evidence_id, entity_type, entity_id, evidence_hash, manifest_hash, submitted_at },
                    )
                    &&& final(self).agrees_except(old(self), false, false, false, true, false, false, false, false, false, false)
                },
            },
    {
        if let Err(e) = self.gov.require_governance_or_owner(env) {
            return Err(e);
        }
        if evidence_id.len() == 0 {
            return Err("empty evidence id");
        }
        if entity_type.len() == 0 {
            return Err("empty entity type");
        }
        if entity_id.len() == 0 {
            return Err("empty entity id");
        }
        if evidence_hash.len() == 0 {
            return Err("empty evidence hash");
        }
        if manifest_hash.len() == 0 {
            return Err("empty manifest hash");
        }
        if submitted_at == 0 {
            return Err("invalid submitted at");
        }
        let key = copy_bytes(&evidence_id);
        let record = EvidenceRecord { evidence_id, entity_type, entity_id, evidence_hash, manifest_hash, submitted_at };
        if let Some(current) = self.evidence_records.get(&key) {
            if !current.is_same(&record) {
                return Err("conflicting evidence record");
            }
            return Ok(None);
        }
        let event = EvidenceRegisteredEventPayload {
            evidence_hash: copy_bytes(&record.evidence_hash),
            manifest_hash: copy_bytes(&record.manifest_hash),
            submitted_at,
        };
        self.evidence_records.insert(key, record);
        Ok(Some(event))
    }

    /// Opens a verification case in `pending_assignment`, at version 1.
    fn create_verification_case(
        &mut self,
        env: &BlockchainEnv,
        case_id: Vec<u8>,
        target_type: Vec<u8>,
        target_id: Vec<u8>,
        assignee: Vec<u8>,
        updated_at: u64,
    ) -> (r: Result<VerificationCaseCreatedEvent, &'static str>)
        ensures
            match old(self).create_verification_case_error(env, case_id@, target_type@, target_id@, assignee@, updated_at) {
                Some(e) => r == Err::<VerificationCaseCreatedEvent, &'static str>(e) && *final(self) == *old(self),
                None => {
                    &&& r matches Ok(ev) && ev.case_id@ == case_id@ && ev.target_type@ == target_type@ && ev.target_id@ == target_id@
                    &&& final(self).verification_cases@ == old(self).verification_cases@.insert(case_id@, final(self).verification_cases@[case_id@])
                    &&& final(self).verification_cases@[case_id@].describes(case_id@, target_type@, target_id@,
                        lit("pending_assignment"), assignee@, Seq::empty(), Seq::empty(), updated_at)
                    &&& final(self).verification_case_version@ == old(self).verification_case_version@.insert(case_id@, 1)
                    &&& final(self).agrees_except(old(self), false, false, false, false, true, false, false, false, false, false)
                },
            },
    {
        if let Err(e) = self.gov.require_governance_or_owner(env) {
            return Err(e);
        }
        if case_id.len() == 0 {
            return Err("empty case id");
        }
        if target_type.len() == 0 {
            return Err("empty target type");
        }
        if target_id.len() == 0 {
            return Err("empty target id");
        }
        if is_zero_address(&assignee) {
            return Err("empty assignee");
        }
        if updated_at == 0 {
            return Err("invalid updated at");
        }
        if self.verification_cases.contains_key(&case_id) {
            return Err("verification case already exists");
        }
        let key = copy_bytes(&case_id);
        let version_key = copy_bytes(&case_id);
        let event = VerificationCaseCreatedEvent {
            case_id: copy_bytes(&case_id),
            target_type: copy_bytes(&target_type),
            target_id: copy_bytes(&target_id),
        };
        let record = VerificationCaseRecord {
            case_id,
            target_type,
            target_id,
            status: copy_bytes("pending_assignment".as_bytes()),
            assignee,
            verifier_statement_hash: Vec::new(),
            verifier_attestation_ref: Vec::new(),
            updated_at,
        };
        let ghost k = key@;
        self.verification_cases.insert(key, record);
        self.verification_case_version.insert(version_key, 1);
        proof {
            assert(self.verification_cases@ =~= old(self).verification_cases@.insert(k, self.verification_cases@[k]));
        }
        Ok(event)
    }

    /// Moves a case along an allowed transition, replacing its assignee,
    /// statement hash, attestation reference and timestamp, and bumps its
    /// version by one.
    fn update_verification_case(
        &mut self,
        env: &BlockchainEnv,
        case_id: Vec<u8>,
        status: Vec<u8>,
        assignee: Vec<u8>,
        verifier_statement_hash: Vec<u8>,
        verifier_attestation_ref: Vec<u8>,
        updated_at: u64,
    ) -> (r: Result<VerificationCaseUpdatedEventPayload, &'static str>)
        ensures
            ({
                let prev = old(self).verification_cases@[case_id@];
                match old(self).update_verification_case_error(env, case_id@, status@, assignee@, updated_at) {
                    Some(e) => r == Err::<VerificationCaseUpdatedEventPayload, &'static str>(e) && *final(self) == *old(self),
                    None => {
                        &&& r matches Ok(ev) && ev.status@ == status@ && ev.assignee@ == assignee@
                            && ev.verifier_statement_hash@ == verifier_statement_hash@
                            && ev.verifier_attestation_ref@ == verifier_attestation_ref@ && ev.updated_at == updated_at
                        &&& final(self).verification_cases@ == old(self).verification_cases@.insert(case_id@, final(self).verification_cases@[case_id@])
                        &&& final(self).verification_cases@[case_id@].describes(prev.case_id@, prev.target_type@,
                            prev.target_id@, status@, assignee@, verifier_statement_hash@, verifier_attestation_ref@, updated_at)
                        &&& final(self).verification_case_version@ == old(self).verification_case_version@.insert(
                            case_id@, (old(self).case_version(case_id@) + 1) as u64)
                        &&& final(self).agrees_except(old(self), false, false, false, false, true, false, false, false, false, false)
                    },
                }
            }),
    {
        if let Err(e) = self.gov.require_governance_or_owner(env) {
            return Err(e);
        }
        if case_id.len() == 0 {
            return Err("empty case id");
        }
        if status.len() == 0 {
            return Err("empty verification status");
        }
        if is_zero_address(&assignee) {
            return Err("empty assignee");
        }
        if updated_at == 0 {
            return Err("invalid updated at");
        }
        let transition_ok = match self.verification_cases.get(&case_id) {
            None => {
                return Err("ENTITY_NOT_FOUND: verification_case");
            },
            Some(record) => is_valid_verification_transition(&record.status, &status),
        };
        if !transition_ok {
            return Err("invalid verification transition");
        }
        let version: u64 = match self.verification_case_version.get(&case_id) {
            Some(v) => *v,
            None => 0,
        };
        if version == u64::MAX {
            return Err("verification case version overflow");
        }
        let event = VerificationCaseUpdatedEventPayload {
            status: copy_bytes(&status),
            assignee: copy_bytes(&assignee),
            verifier_statement_hash: copy_bytes(&verifier_statement_hash),
            verifier_attestation_ref: copy_bytes(&verifier_attestation_ref),
            updated_at,
        };
        let ghost k = case_id@;
        let version_key = copy_bytes(&case_id);
        let taken = self.verification_cases.take(&case_id);
        match taken {
            Some(record) => {
                let updated = VerificationCaseRecord {
                    status,
                    assignee,
                    verifier_statement_hash,
                    verifier_attestation_ref,
                    updated_at,
                    ..record
                };
                self.verification_cases.insert(case_id, updated);
                proof {
                    assert(self.verification_cases@ =~= old(self).verification_cases@.insert(k, self.verification_cases@[k]));
                }
            },
            None => {},
        }
        self.verification_case_version.insert(version_key, version + 1);
        Ok(event)
    }

    /// Creates a lot in `minted`. Re-creating an identical minted or
    /// retired lot changes nothing; a reversed lot can never be re-created.
    fn create_issuance_lot(
        &mut self,
        env: &BlockchainEnv,
        lot_id: Vec<u8>,
        project_id: Vec<u8>,
        verification_case_id: Vec<u8>,
        vintage: u64,
        quantity: Vec<u8>,
        replacement_for_lot_id: Vec<u8>,
    ) -> (r: Result<Option<IssuanceLotCreatedEventPayload>, &'static str>)
        ensures
            match old(self).create_issuance_lot_error(env, lot_id@, project_id@, verification_case_id@, vintage, quantity@,
                replacement_for_lot_id@) {
                Some(e) => r == Err::<Option<IssuanceLotCreatedEventPayload>, &'static str>(e) && *final(self) == *old(self),
                None => if old(self).issuance_lots@.contains_key(lot_id@) {
                    r matches Ok(None) && *final(self) == *old(self)
                } else {
                    &&& r matches Ok(Some(ev)) && ev.vintage == vintage && ev.quantity@ == quantity@
                        && ev.replacement_for_lot_id@ == replacement_for_lot_id@
                    &&& final(self).issuance_lots@ == old(self).issuance_lots@.insert(lot_id@, final(self).issuance_lots@[lot_id@])
                    &&& final(self).issuance_lots@[lot_id@].describes(lot_id@, project_id@, verification_case_id@, vintage,
                        quantity@, lit("minted"), replacement_for_lot_id@, Seq::empty())
                    &&& final(self).agrees_except(old(self), false, false, false, false, false, true, false, false, false, false)
                },
            },
    {
        if let Err(e) = self.gov.require_governance_or_owner(env) {
            return Err(e);
        }
        if lot_id.len() == 0 {
            return Err("empty lot id");
        }
        if project_id.len() == 0 {
            return Err("empty project id");
        }
        if verification_case_id.len() == 0 {
            return Err("empty verification case id");
        }
        if vintage == 0 {
            return Err("invalid vintage");
        }
        if quantity.len() == 0 {
            return Err("empty quantity");
        }
        let key = copy_bytes(&lot_id);
        let event = IssuanceLotCreatedEventPayload {
            vintage,
            quantity: copy_bytes(&quantity),
            replacement_for_lot_id: copy_bytes(&replacement_for_lot_id),
        };
        let record = IssuanceLotRecord {
            lot_id,
            project_id,
            verification_case_id,
            vintage,
            quantity,
            status: copy_bytes("minted".as_bytes()),
            replacement_for_lot_id,
            reversed_amount: Vec::new(),
        };
        if let Some(current) = self.issuance_lots.get(&key) {
            if bytes_eq(&current.status, "reversed".as_bytes()) {
                return Err("REVERSED_LOT_CANNOT_BE_REINSERTED: lot was reversed and cannot be re-created");
            }
            if !current.is_same(&record) {
                return Err("conflicting issuance lot");
            }
            return Ok(None);
        }
        let ghost k = key@;
        self.issuance_lots.insert(key, record);
        proof {
            assert(self.issuance_lots@ =~= old(self).issuance_lots@.insert(k, self.issuance_lots@[k]));
        }
        Ok(Some(event))
    }

    /// Retires a `minted` lot.
    fn retire_issuance_lot(&mut self, env: &BlockchainEnv, lot_id: Vec<u8>) -> (r: Result<IssuanceLotRetiredEvent, &'static str>)
        ensures
            ({
                let prev = old(self).issuance_lots@[lot_id@];
                match old(self).retire_issuance_lot_error(env, lot_id@) {
                    Some(e) => r == Err::<IssuanceLotRetiredEvent, &'static str>(e) && *final(self) == *old(self),
                    None => {
                        &&& r matches Ok(ev) && ev.lot_id@ == lot_id@
                        &&& final(self).issuance_lots@ == old(self).issuance_lots@.insert(lot_id@, final(self).issuance_lots@[lot_id@])
                        &&& final(self).issuance_lots@[lot_id@].describes(prev.lot_id@, prev.project_id@,
                            prev.verification_case_id@, prev.vintage, prev.quantity@, lit("retired"),
                            prev.replacement_for_lot_id@, prev.reversed_amount@)
                        &&& final(self).agrees_except(old(self), false, false, false, false, false, true, false, false, false, false)
                    },
                }
            }),
    {
        if let Err(e) = self.gov.require_governance_or_owner(env) {
            return Err(e);
        }
        if lot_id.len() == 0 {
            return Err("empty lot id");
        }
        let eligible = match self.issuance_lots.get(&lot_id) {
            None => {
                return Err("ENTITY_NOT_FOUND: issuance_lot");
            },
            Some(record) => bytes_eq(&record.status, "minted".as_bytes()),
        };
        if !eligible {
            return Err("lot not eligible for retirement");
        }
        let ghost k = lot_id@;
        let event = IssuanceLotRetiredEvent { lot_id: copy_bytes(&lot_id) };
        let taken = self.issuance_lots.take(&lot_id);
        match taken {
            Some(record) => {
                let updated = IssuanceLotRecord { status: copy_bytes("retired".as_bytes()), ..record };
                self.issuance_lots.insert(lot_id, updated);
                proof {
                    assert(self.issuance_lots@ =~= old(self).issuance_lots@.insert(k, self.issuance_lots@[k]));
                }
            },
            None => {},
        }
        Ok(event)
    }

    /// Reverses a `minted` or `retired` lot, recording the reversed amount.
    fn reverse_issuance_lot(
        &mut self,
        env: &BlockchainEnv,
        lot_id: Vec<u8>,
        reversed_amount: Vec<u8>,
        replacement_lot_id: Vec<u8>,
    ) -> (r: Result<IssuanceLotReversedEventPayload, &'static str>)
        ensures
            ({
                let prev = old(self).issuance_lots@[lot_id@];
                match old(self).reverse_issuance_lot_error(env, lot_id@, reversed_amount@) {
                    Some(e) => r == Err::<IssuanceLotReversedEventPayload, &'static str>(e) && *final(self) == *old(self),
                    None => {
                        &&& r matches Ok(ev) && ev.reversed_amount@ == reversed_amount@ && ev.replacement_lot_id@ == replacement_lot_id@
                        &&& final(self).issuance_lots@ == old(self).issuance_lots@.insert(lot_id@, final(self).issuance_lots@[lot_id@])
                        &&& final(self).issuance_lots@[lot_id@].describes(prev.lot_id@, prev.project_id@,
                            prev.verification_case_id@, prev.vintage, prev.quantity@, lit("reversed"),
                            prev.replacement_for_lot_id@, reversed_amount@)
                        &&& final(self).agrees_except(old(self), false, false, false, false, false, true, false, false, false, false)
                    },
                }
            }),
    {
        if let Err(e) = self.gov.require_governance_or_owner(env) {
            return Err(e);
        }
        if lot_id.len() == 0 {
            return Err("empty lot id");
        }
        if reversed_amount.len() == 0 {
            return Err("empty reversed amount");
        }
        let eligible = match self.issuance_lots.get(&lot_id) {
            None => {
                return Err("ENTITY_NOT_FOUND: issuance_lot");
            },
            Some(record) => bytes_eq(&record.status, "minted".as_bytes()) || bytes_eq(&record.status, "retired".as_bytes()),
        };
        if !eligible {
            return Err("lot not eligible for reversal");
        }
        let event = IssuanceLotReversedEventPayload { reversed_amount: copy_bytes(&reversed_amount), replacement_lot_id };
        let ghost k = lot_id@;
        let taken = self.issuance_lots.take(&lot_id);
        match taken {
            Some(record) => {
                let updated = IssuanceLotRecord { status: copy_bytes("reversed".as_bytes()), reversed_amount, ..record };
                self.issuance_lots.insert(lot_id, updated);
                proof {
                    assert(self.issuance_lots@ =~= old(self).issuance_lots@.insert(k, self.issuance_lots@[k]));
                }
            },
            None => {},
        }
        Ok(event)
    }

    /// Anchors the first proof of a report and binds its season to it.
    /// Anchoring an identical proof again changes nothing; a season that
    /// already has a report must go through `amend_report_v2`.
    fn anchor_report_v2(
        &mut self,
        env: &BlockchainEnv,
        report_id: Vec<u8>,
        public_tenant_id: Vec<u8>,
        public_farm_id: Vec<u8>,
        public_season_id: Vec<u8>,
        public_project_id: Vec<u8>,
        report_hash: Vec<u8>,
        hash_algo: Vec<u8>,
        canonicalization: Vec<u8>,
        methodology_version: u64,
        anchored_at: u64,
        evidence_manifest_hash: Vec<u8>,
    ) -> (r: Result<Option<MrvReportAnchoredV2EventPayload>, &'static str>)
        ensures
            ({
                let p = MrvReportProof {
                    report_id,
                    public_tenant_id,
                    public_farm_id,
                    public_season_id,
                    public_project_id,
                    report_hash,
                    hash_algo,
                    canonicalization,
                    methodology_version,
                    anchored_at,
                    evidence_manifest_hash,
                };
                match old(self).anchor_report_error(env, p) {
                    Some(e) => r == Err::<Option<MrvReportAnchoredV2EventPayload>, &'static str>(e) && *final(self) == *old(self),
                    None => if old(self).report_proofs@.contains_key(report_id@) {
                        r matches Ok(None) && *final(self) == *old(self)
                    } else {
                        &&& r matches Ok(Some(ev)) && ev.report_hash@ == report_hash@ && ev.hash_algo@ == hash_algo@
                            && ev.canonicalization@ == canonicalization@ && ev.methodology_version == methodology_version
                            && ev.anchored_at == anchored_at && ev.public_project_id@ == public_project_id@
                            && ev.evidence_manifest_hash@ == evidence_manifest_hash@
                        &&& final(self).report_proofs@ == old(self).report_proofs@.insert(report_id@, p)
                        &&& final(self).proof_by_season@ == old(self).proof_by_season@.insert(
                            season_key_of(p), final(self).proof_by_season@[season_key_of(p)])
                        &&& final(self).proof_by_season@[season_key_of(p)]@ == report_id@
                        &&& final(self).agrees_except(old(self), true, false, false, false, false, false, false, false, false, false)
                    },
                }
            }),
    {
        if let Err(e) = self.gov.require_governance_or_owner(env) {
            return Err(e);
        }
        if let Err(e) = report_fields_check(&report_id, &public_tenant_id, &public_farm_id, &public_season_id,
            &public_project_id, &report_hash, &hash_algo, &canonicalization, methodology_version, anchored_at,
            &evidence_manifest_hash) {
            return Err(e);
        }
        let season_key = make_key3(&public_tenant_id, &public_farm_id, &public_season_id);
        let rid_key = copy_bytes(&report_id);
        let rid_value = copy_bytes(&report_id);
        let event = MrvReportAnchoredV2EventPayload {
            report_hash: copy_bytes(&report_hash),
            hash_algo: copy_bytes(&hash_algo),
            canonicalization: copy_bytes(&canonicalization),
            methodology_version,
            anchored_at,
            public_project_id: copy_bytes(&public_project_id),
            evidence_manifest_hash: copy_bytes(&evidence_manifest_hash),
        };
        let proof = MrvReportProof {
            report_id,
            public_tenant_id,
            public_farm_id,
            public_season_id,
            public_project_id,
            report_hash,
            hash_algo,
            canonicalization,
            methodology_version,
            anchored_at,
            evidence_manifest_hash,
        };
        if !self.report_proofs.contains_key(&rid_key) {
            if self.proof_by_season.contains_key(&season_key) {
                return Err(
                    "SEASON_PROOF_ALREADY_EXISTS: this (tenant,farm,season) already has an anchored report — use amendReportV2 to update",
                );
            }
            let ghost rid = rid_key@;
            let ghost sk = season_key@;
            let ghost p = proof;
            let ghost old_rp = self.report_proofs@;
            let ghost old_pbs = self.proof_by_season@;
            self.report_proofs.insert(rid_key, proof);
            self.proof_by_season.insert(season_key, rid_value);
            proof {
                assert(self.proof_by_season@ =~= old_pbs.insert(sk, self.proof_by_season@[sk]));
                assert forall|r2: Seq<u8>| #[trigger] self.report_proofs@.contains_key(r2) implies {
                    &&& self.report_proofs@[r2].report_id@ == r2
                    &&& self.proof_by_season@.contains_key(season_key_of(self.report_proofs@[r2]))
                    &&& self.proof_by_season@[season_key_of(self.report_proofs@[r2])]@ == r2
                } by {
                    if r2 != rid {
                        assert(old_rp.contains_key(r2));
                        assert(old_pbs.contains_key(season_key_of(old_rp[r2])));
                    }
                }
                assert forall|k: Seq<u8>| #[trigger] self.proof_by_season@.contains_key(k) implies {
                    &&& self.report_proofs@.contains_key(self.proof_by_season@[k]@)
                    &&& season_key_of(self.report_proofs@[self.proof_by_season@[k]@]) == k
                } by {
                    if k != sk {
                        assert(old_pbs.contains_key(k));
                        assert(old_rp.contains_key(old_pbs[k]@));
                    }
                }
            }
            return Ok(Some(event));
        }
        match self.report_proofs.get(&rid_key) {
            Some(existing) => {
                if !existing.is_same(&proof) {
                    return Err("conflicting report proof");
                }
            },
            None => {},
        }
        Ok(None)
    }

    /// Replaces a report's proof. When the season changes, the old season
    /// is released and the new one bound to the report, unless another
    /// report holds it.
    fn amend_report_v2(
        &mut self,
        env: &BlockchainEnv,
        report_id: Vec<u8>,
        public_tenant_id: Vec<u8>,
        public_farm_id: Vec<u8>,
        public_season_id: Vec<u8>,
        public_project_id: Vec<u8>,
        report_hash: Vec<u8>,
        hash_algo: Vec<u8>,
        canonicalization: Vec<u8>,
        methodology_version: u64,
        anchored_at: u64,
        evidence_manifest_hash: Vec<u8>,
    ) -> (r: Result<MrvReportAmendedV2EventPayload, &'static str>)
        ensures
            ({
                let p = MrvReportProof {
                    report_id,
                    public_tenant_id,
                    public_farm_id,
                    public_season_id,
                    public_project_id,
                    report_hash,
                    hash_algo,
                    canonicalization,
                    methodology_version,
                    anchored_at,
                    evidence_manifest_hash,
                };
                let prev = old(self).report_proofs@[report_id@];
                match old(self).amend_report_error(env, p) {
                    Some(e) => r == Err::<MrvReportAmendedV2EventPayload, &'static str>(e) && *final(self) == *old(self),
                    None => {
                        &&& r matches Ok(ev) && ev.report_hash@ == report_hash@ && ev.hash_algo@ == hash_algo@
                            && ev.canonicalization@ == canonicalization@ && ev.methodology_version == methodology_version
                            && ev.anchored_at == anchored_at && ev.public_project_id@ == public_project_id@
                            && ev.evidence_manifest_hash@ == evidence_manifest_hash@
                        &&& final(self).report_proofs@ == old(self).report_proofs@.insert(report_id@, p)
                        &&& if season_moves(prev, p) {
                            &&& final(self).proof_by_season@ == old(self).proof_by_season@.remove(season_key_of(prev)).insert(
                                season_key_of(p), final(self).proof_by_season@[season_key_of(p)])
                            &&& final(self).proof_by_season@[season_key_of(p)]@ == report_id@
                        } else {
                            final(self).proof_by_season == old(self).proof_by_season
                        }
                        &&& final(self).agrees_except(old(self), true, false, false, false, false, false, false, false, false, false)
                    },
                }
            }),
    {
        if let Err(e) = self.gov.require_governance_or_owner(env) {
            return Err(e);
        }
        if let Err(e) = report_fields_check(&report_id, &public_tenant_id, &public_farm_id, &public_season_id,
            &public_project_id, &report_hash, &hash_algo, &canonicalization, methodology_version, anchored_at,
            &evidence_manifest_hash) {
            return Err(e);
        }
        let ghost old_rp = self.report_proofs@;
        let ghost old_pbs = self.proof_by_season@;
        let ghost rid = report_id@;
        let (moves, old_key) = match self.report_proofs.get(&report_id) {
            None => {
                return Err("missing proof");
            },
            Some(existing) => {
                let same_season = bytes_eq(&existing.public_tenant_id, &public_tenant_id) && bytes_eq(
                    &existing.public_farm_id,
                    &public_farm_id,
                ) && bytes_eq(&existing.public_season_id, &public_season_id);
                (!same_season, make_key3(&existing.public_tenant_id, &existing.public_farm_id, &existing.public_season_id))
            },
        };
        let new_key = make_key3(&public_tenant_id, &public_farm_id, &public_season_id);
        if moves {
            match self.proof_by_season.get(&new_key) {
                Some(bound) => {
                    if !bytes_eq(bound, &report_id) {
                        return Err("season already bound to a different report");
                    }
                },
                None => {},
            }
        }
        let ghost nk = new_key@;
        let ghost ok = old_key@;
        let event = MrvReportAmendedV2EventPayload {
            report_hash: copy_bytes(&report_hash),
            hash_algo: copy_bytes(&hash_algo),
            canonicalization: copy_bytes(&canonicalization),
            methodology_version,
            anchored_at,
            public_project_id: copy_bytes(&public_project_id),
            evidence_manifest_hash: copy_bytes(&evidence_manifest_hash),
        };
        if moves {
            let rid_value = copy_bytes(&report_id);
            self.proof_by_season.remove(&old_key);
            self.proof_by_season.insert(new_key, rid_value);
            proof {
                assert(self.proof_by_season@ =~= old_pbs.remove(ok).insert(nk, self.proof_by_season@[nk]));
            }
        }
        let rid_key = copy_bytes(&report_id);
        let proof = MrvReportProof {
            report_id,
            public_tenant_id,
            public_farm_id,
            public_season_id,
            public_project_id,
            report_hash,
            hash_algo,
            canonicalization,
            methodology_version,
            anchored_at,
            evidence_manifest_hash,
        };
        let ghost p = proof;
        self.report_proofs.insert(rid_key, proof);
        proof {
            assert(season_key_of(old_rp[rid]) == ok);
            assert(season_key_of(p) == nk);
            assert forall|r2: Seq<u8>| #[trigger] self.report_proofs@.contains_key(r2) implies {
                &&& self.report_proofs@[r2].report_id@ == r2
                &&& proof_fields_valid(self.report_proofs@[r2])
                &&& self.proof_by_season@.contains_key(season_key_of(self.report_proofs@[r2]))
                &&& self.proof_by_season@[season_key_of(self.report_proofs@[r2])]@ == r2
            } by {
                if r2 != rid {
                    assert(old_rp.contains_key(r2));
                    let k2 = season_key_of(old_rp[r2]);
                    assert(old_pbs.contains_key(k2) && old_pbs[k2]@ == r2);
                    assert(old_pbs[ok]@ == rid);
                    assert(k2 != ok);
                    if moves {
                        assert(k2 != nk);
                    }
                }
            }
            assert forall|k: Seq<u8>| #[trigger] self.proof_by_season@.contains_key(k) implies {
                &&& self.report_proofs@.contains_key(self.proof_by_season@[k]@)
                &&& season_key_of(self.report_proofs@[self.proof_by_season@[k]@]) == k
            } by {
                if moves && k == nk {
                } else {
                    assert(old_pbs.contains_key(k));
                    let v = old_pbs[k]@;
                    assert(old_rp.contains_key(v));
                    if v == rid {
                        assert(k == ok);
                    }
                }
            }
        }
        Ok(event)
    }

    /// Accredits a VVB address for verification statements.
    fn register_accredited_vvb(&mut self, env: &BlockchainEnv, vvb_did: Vec<u8>) -> (r: Result<(), &'static str>)
        ensures
            old(self).auth_error(env) is Some ==> r == Err::<(), &'static str>(old(self).auth_error(env)->0) && *final(self) == *old(self),
            old(self).auth_error(env) is None && vvb_did@ == zero_address() ==>
                r == Err::<(), &'static str>("vvb_did must not be zero") && *final(self) == *old(self),
            old(self).auth_error(env) is None && vvb_did@ != zero_address() ==> {
                &&& r is Ok
                &&& final(self).accredited_vvbs@ == old(self).accredited_vvbs@.insert(vvb_did@, ())
                &&& final(self).agrees_except(old(self), false, false, false, false, false, false, true, false, false, false)
            },
    {
        if let Err(e) = self.gov.require_governance_or_owner(env) {
            return Err(e);
        }
        if is_zero_address(&vvb_did) {
            return Err("vvb_did must not be zero");
        }
        self.accredited_vvbs.insert(vvb_did, ());
        Ok(())
    }

    /// Withdraws a VVB's accreditation (nothing happens for an unknown one).
    fn deregister_accredited_vvb(&mut self, env: &BlockchainEnv, vvb_did: Vec<u8>) -> (r: Result<(), &'static str>)
        ensures
            old(self).auth_error(env) is Some ==> r == Err::<(), &'static str>(old(self).auth_error(env)->0) && *final(self) == *old(self),
            old(self).auth_error(env) is None ==> {
                &&& r is Ok
                &&& final(self).accredited_vvbs@ == old(self).accredited_vvbs@.remove(vvb_did@)
                &&& final(self).agrees_except(old(self), false, false, false, false, false, false, true, false, false, false)
            },
    {
        if let Err(e) = self.gov.require_governance_or_owner(env) {
            return Err(e);
        }
        self.accredited_vvbs.remove(&vvb_did);
        Ok(())
    }

    fn is_vvb_accredited(&self, vvb_did: &[u8]) -> (r: bool)
        ensures
            r == self.accredited_vvbs@.contains_key(vvb_did@),
    {
        self.accredited_vvbs.contains_key(vvb_did)
    }

    /// Commits the execution bundle of a PAI monitoring period, once; the
    /// commit time is the block timestamp.
    fn commit_execution_bundle(
        &mut self,
        env: &BlockchainEnv,
        pai_id: Vec<u8>,
        monitoring_period_n: u64,
        bundle_cid: Vec<u8>,
        bundle_hash: Vec<u8>,
    ) -> (r: Result<ExecutionBundleCommittedEvent, &'static str>)
        ensures
            match old(self).commit_execution_bundle_error(env, pai_id@, monitoring_period_n, bundle_cid@, bundle_hash@) {
                Some(e) => r == Err::<ExecutionBundleCommittedEvent, &'static str>(e) && *final(self) == *old(self),
                None => {
                    &&& r matches Ok(ev) && ev.pai_id@ == pai_id@ && ev.bundle_cid@ == bundle_cid@ && ev.bundle_hash@ == bundle_hash@
                    &&& final(self).execution_bundles@ == old(self).execution_bundles@.insert(
                        key2(pai_id@, u64_be(monitoring_period_n)),
                        ExecutionBundleRecord { pai_id, monitoring_period_n, bundle_cid, bundle_hash, committed_at: env.block_timestamp },
                    )
                    &&& final(self).agrees_except(old(self), false, false, false, false, false, false, false, true, false, false)
                },
            },
    {
        if let Err(e) = self.gov.require_governance_or_owner(env) {
            return Err(e);
        }
        if pai_id.len() == 0 {
            return Err("empty pai_id");
        }
        if monitoring_period_n == 0 {
            return Err("invalid monitoring_period_n");
        }
        if bundle_cid.len() == 0 {
            return Err("empty bundle_cid");
        }
        if bundle_hash.len() != 32 {
            return Err("bundle_hash must be 32 bytes (SHA-256)");
        }
        let pk = period_key(monitoring_period_n);
        let key = make_key2(&pai_id, &pk);
        if self.execution_bundles.contains_key(&key) {
            return Err("execution bundle already committed for this PAI/period");
        }
        let event = ExecutionBundleCommittedEvent {
            pai_id: copy_bytes(&pai_id),
            bundle_cid: copy_bytes(&bundle_cid),
            bundle_hash: copy_bytes(&bundle_hash),
        };
        let record = ExecutionBundleRecord {
            pai_id,
            monitoring_period_n,
            bundle_cid,
            bundle_hash,
            committed_at: env.block_timestamp,
        };
        self.execution_bundles.insert(key, record);
        Ok(event)
    }

    /// Records the first, immutable verification statement of a committed
    /// bundle, from an accredited VVB; corrections go through adjustments.
    fn submit_verification_statement(
        &mut self,
        env: &BlockchainEnv,
        pai_id: Vec<u8>,
        monitoring_period_n: u64,
        vvb_did: Vec<u8>,
        statement_cid: Vec<u8>,
        outcome: Vec<u8>,
    ) -> (r: Result<VerificationStatementSubmittedEvent, &'static str>)
        ensures
            match old(self).submit_verification_statement_error(env, pai_id@, monitoring_period_n, vvb_did@, statement_cid@, outcome@) {
                Some(e) => r == Err::<VerificationStatementSubmittedEvent, &'static str>(e) && *final(self) == *old(self),
                None => {
                    &&& r matches Ok(ev) && ev.pai_id@ == pai_id@ && ev.vvb_did@ == vvb_did@ && ev.statement_cid@ == statement_cid@
                        && ev.outcome@ == outcome@
                    &&& final(self).verification_statements@ == old(self).verification_statements@.insert(
                        key2(pai_id@, u64_be(monitoring_period_n)),
                        VerificationStatementRecord {
                            pai_id,
                            monitoring_period_n,
                            vvb_did,
                            statement_cid,
                            outcome,
                            submitted_at: env.block_timestamp,
                        },
                    )
                    &&& final(self).agrees_except(old(self), false, false, false, false, false, false, false, false, true, false)
                },
            },
    {
        if let Err(e) = self.gov.require_governance_or_owner(env) {
            return Err(e);
        }
        if pai_id.len() == 0 {
            return Err("empty pai_id");
        }
        if monitoring_period_n == 0 {
            return Err("invalid monitoring_period_n");
        }
        if is_zero_address(&vvb_did) {
            return Err("empty vvb_did");
        }
        if statement_cid.len() == 0 {
            return Err("empty statement_cid");
        }
        if !(bytes_eq(&outcome, "approved".as_bytes()) || bytes_eq(&outcome, "rejected".as_bytes()) || bytes_eq(
            &outcome,
            "needs_more_information".as_bytes(),
        )) {
            return Err("outcome must be approved, rejected, or needs_more_information");
        }
        if !self.accredited_vvbs.contains_key(&vvb_did) {
            return Err("VVB_NOT_ACCREDITED: vvb_did must be registered via registerAccreditedVvb");
        }
        let pk = period_key(monitoring_period_n);
        let key = make_key2(&pai_id, &pk);
        if !self.execution_bundles.contains_key(&key) {
            return Err("execution bundle not committed for this PAI/period");
        }
        if self.verification_statements.contains_key(&key) {
            return Err("STATEMENT_ALREADY_SUBMITTED: use submitVerifierAdjustment for corrections");
        }
        let event = VerificationStatementSubmittedEvent {
            pai_id: copy_bytes(&pai_id),
            vvb_did: copy_bytes(&vvb_did),
            statement_cid: copy_bytes(&statement_cid),
            outcome: copy_bytes(&outcome),
        };
        let record = VerificationStatementRecord {
            pai_id,
            monitoring_period_n,
            vvb_did,
            statement_cid,
            outcome,
            submitted_at: env.block_timestamp,
        };
        self.verification_statements.insert(key, record);
        Ok(event)
    }

    /// Appends the next adjustment to a submitted statement: the n-th
    /// adjustment of a PAI period carries sequence n.
    fn submit_verifier_adjustment(
        &mut self,
        env: &BlockchainEnv,
        pai_id: Vec<u8>,
        monitoring_period_n: u64,
        adjustment_cid: Vec<u8>,
    ) -> (r: Result<VerifierAdjustmentSubmittedEvent, &'static str>)
        ensures
            ({
                let next = (old(self).adjustment_count(pai_id@, monitoring_period_n) + 1) as u64;
                match old(self).submit_verifier_adjustment_error(env, pai_id@, monitoring_period_n, adjustment_cid@) {
                    Some(e) => r == Err::<VerifierAdjustmentSubmittedEvent, &'static str>(e) && *final(self) == *old(self),
                    None => {
                        &&& r matches Ok(ev) && ev.pai_id@ == pai_id@ && ev.adjustment_cid@ == adjustment_cid@
                        &&& final(self).verifier_adjustment_count@ == old(self).verifier_adjustment_count@.insert(
                            key2(pai_id@, u64_be(monitoring_period_n)), next)
                        &&& final(self).verifier_adjustments@ == old(self).verifier_adjustments@.insert(
                            key3(pai_id@, u64_be(monitoring_period_n), u64_be(next)),
                            VerifierAdjustmentRecord {
                                pai_id,
                                monitoring_period_n,
                                adjustment_cid,
                                sequence: next,
                                submitted_at: env.block_timestamp,
                            },
                        )
                        &&& final(self).agrees_except(old(self), false, false, false, false, false, false, false, false, false, true)
                    },
                }
            }),
    {
        if let Err(e) = self.gov.require_governance_or_owner(env) {
            return Err(e);
        }
        if pai_id.len() == 0 {
            return Err("empty pai_id");
        }
        if monitoring_period_n == 0 {
            return Err("invalid monitoring_period_n");
        }
        if adjustment_cid.len() == 0 {
            return Err("empty adjustment_cid");
        }
        let pk = period_key(monitoring_period_n);
        let stmt_key = make_key2(&pai_id, &pk);
        if !self.verification_statements.contains_key(&stmt_key) {
            return Err("verification statement not submitted for this PAI/period");
        }
        let current: u64 = match self.verifier_adjustment_count.get(&stmt_key) {
            Some(c) => *c,
            None => 0,
        };
        if current == u64::MAX {
            return Err("verifier adjustment count overflow");
        }
        let next_seq: u64 = current + 1;
        let sk = period_key(next_seq);
        let adjustment_key = make_key3(&pai_id, &pk, &sk);
        self.verifier_adjustment_count.insert(stmt_key, next_seq);
        let event = VerifierAdjustmentSubmittedEvent { pai_id: copy_bytes(&pai_id), adjustment_cid: copy_bytes(&adjustment_cid) };
        let record = VerifierAdjustmentRecord {
            pai_id,
            monitoring_period_n,
            adjustment_cid,
            sequence: next_seq,
            submitted_at: env.block_timestamp,
        };
        self.verifier_adjustments.insert(adjustment_key, record);
        Ok(event)
    }

    /// Writes storage version 1 when none is recorded yet.
    fn upgrade(&mut self)
        ensures
            final(self).storage_version == if old(self).storage_version < 1 { 1 } else { old(self).storage_version },
            ({
                let n = RegistryState { storage_version: old(self).storage_version, ..*final(self) };
                n == *old(self)
            }),
    {
        if self.storage_version < 1 {
            self.storage_version = 1;
        }
    }
}


impl RegistryState {
    pub fn get_report_proof(&self, report_id: &[u8]) -> (r: Option<&MrvReportProof>)
        requires
            self.wf(),
        ensures
            match r {
                Some(p) => self.report_proofs@.contains_key(report_id@) && *p == self.report_proofs@[report_id@],
                None => !self.report_proofs@.contains_key(report_id@),
            },
    {
        self.report_proofs.get(report_id)
    }

    /// The proof bound to a `(tenant, farm, season)`: it is always a proof
    /// of that very season.
    pub fn get_report_proof_by_season(
        &self,
        public_tenant_id: &[u8],
        public_farm_id: &[u8],
        public_season_id: &[u8],
    ) -> (r: Option<&MrvReportProof>)
        requires
            self.wf(),
        ensures
            ({
                let k = key3(public_tenant_id@, public_farm_id@, public_season_id@);
                match r {
                    Some(p) => {
                        &&& self.proof_by_season@.contains_key(k)
                        &&& *p == self.report_proofs@[self.proof_by_season@[k]@]
                        &&& season_key_of(*p) == k
                    },
                    None => !self.proof_by_season@.contains_key(k),
                }
            }),
    {
        let key = make_key3(public_tenant_id, public_farm_id, public_season_id);
        match self.proof_by_season.get(&key) {
            Some(report_id) => self.report_proofs.get(report_id),
            None => None,
        }
    }

    pub fn get_report_id_by_season(
        &self,
        public_tenant_id: &[u8],
        public_farm_id: &[u8],
        public_season_id: &[u8],
    ) -> (r: Option<&Vec<u8>>)
        requires
            self.wf(),
        ensures
            ({
                let k = key3(public_tenant_id@, public_farm_id@, public_season_id@);
                match r {
                    Some(id) => self.proof_by_season@.contains_key(k) && *id == self.proof_by_season@[k],
                    None => !self.proof_by_season@.contains_key(k),
                }
            }),
    {
        let key = make_key3(public_tenant_id, public_farm_id, public_season_id);
        self.proof_by_season.get(&key)
    }

    pub fn is_report_anchored(&self, report_id: &[u8]) -> (r: bool)
        requires
            self.wf(),
        ensures
            r == self.report_proofs@.contains_key(report_id@),
    {
        self.report_proofs.contains_key(report_id)
    }

    pub fn get_anchored_reports_count(&self) -> (r: usize)
        requires
            self.wf(),
        ensures
            r == self.report_proofs@.len(),
    {
        self.report_proofs.len()
    }

    pub fn get_methodology_record(&self, methodology_id: &[u8], version_label: &[u8]) -> (r: Option<&MethodologyRecord>)
        requires
            self.wf(),
        ensures
            ({
                let k = key2(methodology_id@, version_label@);
                match r {
                    Some(m) => self.methodology_records@.contains_key(k) && *m == self.methodology_records@[k],
                    None => !self.methodology_records@.contains_key(k),
                }
            }),
    {
        let key = make_key2(methodology_id, version_label);
        self.methodology_records.get(&key)
    }

    pub fn get_methodology_records_count(&self) -> (r: usize)
        requires
            self.wf(),
        ensures
            r == self.methodology_records@.len(),
    {
        self.methodology_records.len()
    }

    pub fn get_project_record(&self, project_id: &[u8]) -> (r: Option<&ProjectRecord>)
        requires
            self.wf(),
        ensures
            match r {
                Some(p) => self.project_records@.contains_key(project_id@) && *p == self.project_records@[project_id@],
                None => !self.project_records@.contains_key(project_id@),
            },
    {
        self.project_records.get(project_id)
    }

    pub fn get_project_records_count(&self) -> (r: usize)
        requires
            self.wf(),
        ensures
            r == self.project_records@.len(),
    {
        self.project_records.len()
    }

    pub fn get_evidence_record(&self, evidence_id: &[u8]) -> (r: Option<&EvidenceRecord>)
        requires
            self.wf(),
        ensures
            match r {
                Some(e) => self.evidence_records@.contains_key(evidence_id@) && *e == self.evidence_records@[evidence_id@],
                None => !self.evidence_records@.contains_key(evidence_id@),
            },
    {
        self.evidence_records.get(evidence_id)
    }

    pub fn get_evidence_records_count(&self) -> (r: usize)
        requires
            self.wf(),
        ensures
            r == self.evidence_records@.len(),
    {
        self.evidence_records.len()
    }

    pub fn get_verification_case(&self, case_id: &[u8]) -> (r: Option<&VerificationCaseRecord>)
        requires
            self.wf(),
        ensures
            match r {
                Some(c) => self.verification_cases@.contains_key(case_id@) && *c == self.verification_cases@[case_id@],
                None => !self.verification_cases@.contains_key(case_id@),
            },
    {
        self.verification_cases.get(case_id)
    }

    pub fn get_verification_cases_count(&self) -> (r: usize)
        requires
            self.wf(),
        ensures
            r == self.verification_cases@.len(),
    {
        self.verification_cases.len()
    }

    /// The version of a case: 0 before it exists, 1 on creation, plus one
    /// per accepted update.
    pub fn get_verification_case_version(&self, case_id: &[u8]) -> (r: u64)
        requires
            self.wf(),
        ensures
            r == self.case_version(case_id@),
    {
        match self.verification_case_version.get(case_id) {
            Some(v) => *v,
            None => 0,
        }
    }

    pub fn get_issuance_lot(&self, lot_id: &[u8]) -> (r: Option<&IssuanceLotRecord>)
        requires
            self.wf(),
        ensures
            match r {
                Some(l) => self.issuance_lots@.contains_key(lot_id@) && *l == self.issuance_lots@[lot_id@],
                None => !self.issuance_lots@.contains_key(lot_id@),
            },
    {
        self.issuance_lots.get(lot_id)
    }

    pub fn get_issuance_lots_count(&self) -> (r: usize)
        requires
            self.wf(),
        ensures
            r == self.issuance_lots@.len(),
    {
        self.issuance_lots.len()
    }

    pub fn get_execution_bundle(&self, pai_id: &[u8], monitoring_period_n: u64) -> (r: Option<&ExecutionBundleRecord>)
        requires
            self.wf(),
        ensures
            ({
                let k = key2(pai_id@, u64_be(monitoring_period_n));
                match r {
                    Some(b) => self.execution_bundles@.contains_key(k) && *b == self.execution_bundles@[k],
                    None => !self.execution_bundles@.contains_key(k),
                }
            }),
    {
        let pk = period_key(monitoring_period_n);
        let key = make_key2(pai_id, &pk);
        self.execution_bundles.get(&key)
    }

    pub fn get_verification_statement(&self, pai_id: &[u8], monitoring_period_n: u64) -> (r: Option<&VerificationStatementRecord>)
        requires
            self.wf(),
        ensures
            ({
                let k = key2(pai_id@, u64_be(monitoring_period_n));
                match r {
                    Some(st) => self.verification_statements@.contains_key(k) && *st == self.verification_statements@[k],
                    None => !self.verification_statements@.contains_key(k),
                }
            }),
    {
        let pk = period_key(monitoring_period_n);
        let key = make_key2(pai_id, &pk);
        self.verification_statements.get(&key)
    }

    /// The adjustment of a PAI period with the given sequence number.
    pub fn get_verifier_adjustment(&self, pai_id: &[u8], monitoring_period_n: u64, sequence: u64) -> (r: Option<&VerifierAdjustmentRecord>)
        requires
            self.wf(),
        ensures
            ({
                let k = key3(pai_id@, u64_be(monitoring_period_n), u64_be(sequence));
                match r {
                    Some(a) => self.verifier_adjustments@.contains_key(k) && *a == self.verifier_adjustments@[k],
                    None => !self.verifier_adjustments@.contains_key(k),
                }
            }),
    {
        let pk = period_key(monitoring_period_n);
        let sk = period_key(sequence);
        let key = make_key3(pai_id, &pk, &sk);
        self.verifier_adjustments.get(&key)
    }

    /// The number of adjustments recorded for a PAI period.
    pub fn get_verifier_adjustment_count(&self, pai_id: &[u8], monitoring_period_n: u64) -> (r: u64)
        requires
            self.wf(),
        ensures
            r == self.adjustment_count(pai_id@, monitoring_period_n),
    {
        let pk = period_key(monitoring_period_n);
        match self.verifier_adjustment_count.get(&make_key2(pai_id, &pk)) {
            Some(c) => *c,
            None => 0,
        }
    }

    pub fn get_storage_version(&self) -> (r: u32)
        ensures
            r == self.storage_version,
    {
        self.storage_version
    }
}

// ── laws ────────────────────────────────────────────────────────────────

/// A reversed issuance lot is final: it can be neither retired, reversed
/// again, nor created anew.
pub proof fn lemma_reversed_lot_is_final(
    s: RegistryState,
    env: BlockchainEnv,
    lot_id: Seq<u8>,
    project_id: Seq<u8>,
    verification_case_id: Seq<u8>,
    vintage: u64,
    quantity: Seq<u8>,
    replacement_for_lot_id: Seq<u8>,
    reversed_amount: Seq<u8>,
)
    requires
        s.issuance_lots@.contains_key(lot_id),
        s.issuance_lots@[lot_id].status@ == lit("reversed"),
    ensures
        s.retire_issuance_lot_error(&env, lot_id) is Some,
        s.reverse_issuance_lot_error(&env, lot_id, reversed_amount) is Some,
        s.create_issuance_lot_error(&env, lot_id, project_id, verification_case_id, vintage, quantity,
            replacement_for_lot_id) is Some,
{
    reveal_strlit("reversed");
    reveal_strlit("minted");
    reveal_strlit("retired");
    lemma_ascii_lit("reversed");
    lemma_ascii_lit("minted");
    lemma_ascii_lit("retired");
    assert(lit("reversed")[1] != lit("minted")[1]);
    assert(lit("reversed")[2] != lit("retired")[2]);
}

/// Only a minted lot can be retired: a retirement that goes through finds
/// the lot stored and minted, and a lot that is already retired is refused,
/// so the same credits are never retired twice.
pub proof fn lemma_only_minted_lots_retire(s: RegistryState, env: BlockchainEnv, lot_id: Seq<u8>)
    ensures
        s.retire_issuance_lot_error(&env, lot_id) is None ==> s.issuance_lots@.contains_key(lot_id)
            && s.issuance_lots@[lot_id].status@ == lit("minted"),
        s.issuance_lots@.contains_key(lot_id) && s.issuance_lots@[lot_id].status@ == lit("retired")
            ==> s.retire_issuance_lot_error(&env, lot_id) is Some,
        s.issuance_lots@.contains_key(lot_id) && s.issuance_lots@[lot_id].status@ == lit("minted")
            ==> s.retire_issuance_lot_error(&env, lot_id) != Some::<&'static str>("lot not eligible for retirement"),
{
    reveal_strlit("minted");
    reveal_strlit("retired");
    lemma_ascii_lit("minted");
    lemma_ascii_lit("retired");
    assert(lit("retired")[0] != lit("minted")[0]);
}

/// A minted or a retired lot can be reversed, and only those: a reversal
/// that goes through finds the lot minted or retired, and neither status is
/// refused as ineligible.
pub proof fn lemma_minted_or_retired_lots_reverse(s: RegistryState, env: BlockchainEnv, lot_id: Seq<u8>, reversed_amount: Seq<u8>)
    ensures
        s.reverse_issuance_lot_error(&env, lot_id, reversed_amount) is None ==> s.issuance_lots@.contains_key(lot_id) && (
        s.issuance_lots@[lot_id].status@ == lit("minted") || s.issuance_lots@[lot_id].status@ == lit("retired")),
        s.issuance_lots@.contains_key(lot_id) && (s.issuance_lots@[lot_id].status@ == lit("minted")
            || s.issuance_lots@[lot_id].status@ == lit("retired")) ==> s.reverse_issuance_lot_error(&env, lot_id, reversed_amount)
            != Some::<&'static str>("lot not eligible for reversal"),
{
}

/// A verification statement concludes `approved`, `rejected` or
/// `needs_more_information`: a statement that is accepted carries one of
/// these outcomes, and none of them is refused as an invalid outcome.
pub proof fn lemma_statement_outcomes(
    s: RegistryState,
    env: BlockchainEnv,
    pai_id: Seq<u8>,
    monitoring_period_n: u64,
    vvb_did: Seq<u8>,
    statement_cid: Seq<u8>,
    outcome: Seq<u8>,
)
    ensures
        s.submit_verification_statement_error(&env, pai_id, monitoring_period_n, vvb_did, statement_cid, outcome) is None
            ==> (outcome == lit("approved") || outcome == lit("rejected") || outcome == lit("needs_more_information")),
        (outcome == lit("approved") || outcome == lit("rejected") || outcome == lit("needs_more_information"))
            ==> s.submit_verification_statement_error(&env, pai_id, monitoring_period_n, vvb_did, statement_cid, outcome)
            != Some::<&'static str>("outcome must be approved, rejected, or needs_more_information"),
{
}

/// Anchoring a proof that is already stored under its id is accepted and,
/// by the contract of `anchor_report_v2`, changes nothing.
pub proof fn lemma_anchor_is_idempotent(s: RegistryState, env: BlockchainEnv, p: MrvReportProof)
    requires
        s.wf(),
        s.auth_error(&env) is None,
        s.report_proofs@.contains_key(p.report_id@),
        s.report_proofs@[p.report_id@].same(&p),
    ensures
        s.anchor_report_error(&env, p) is None,
{
    assert(proof_fields_valid(s.report_proofs@[p.report_id@]));
}

/// The first verification statement of a PAI period is immutable: any later
/// submission for the same period is refused, so corrections go through
/// verifier adjustments.
pub proof fn lemma_first_statement_is_immutable(
    s: RegistryState,
    env: BlockchainEnv,
    pai_id: Seq<u8>,
    monitoring_period_n: u64,
    vvb_did: Seq<u8>,
    statement_cid: Seq<u8>,
    outcome: Seq<u8>,
)
    requires
        s.verification_statements@.contains_key(key2(pai_id, u64_be(monitoring_period_n))),
    ensures
        s.submit_verification_statement_error(&env, pai_id, monitoring_period_n, vvb_did, statement_cid, outcome) is Some,
{
}

} // verus!
