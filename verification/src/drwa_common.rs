//! Shared types, sync-envelope serialization, validation rules and the
//! governance module of the DRWA contracts.
use vstd::prelude::*;

use crate::bytes::{bytes_eq, copy_bytes, is_zero_address, lit, new_zero_address, len_prefixed, push_bytes, push_u32_be, push_u64_be, u32_be, u64_be, zero_address};
use crate::crypto::{keccak256, keccak256_of};
use crate::env::BlockchainEnv;
use vstd::string::StringSliceAdditionalSpecFns;

verus! {

// ── token identifier rule ───────────────────────────────────────────────

/// Number of occurrences of `b` in `s`.
pub open spec fn count_byte(s: Seq<u8>, b: u8) -> nat
    decreases s.len(),
{
    if s.len() == 0 {
        0
    } else {
        count_byte(s.drop_last(), b) + (if s.last() == b { 1nat } else { 0nat })
    }
}

/// Position of the first `b` in `s`, or `s.len()` when there is none.
pub open spec fn first_index_of(s: Seq<u8>, b: u8) -> int {
    if exists|i: int| 0 <= i < s.len() && s[i] == b {
        choose|i: int| 0 <= i < s.len() && s[i] == b && forall|j: int| 0 <= j < i ==> s[j] != b
    } else {
        s.len() as int
    }
}

pub open spec fn is_upper_or_digit(b: u8) -> bool {
    (65u8 <= b <= 90u8) || (48u8 <= b <= 57u8)
}

pub open spec fn is_lower_hex(b: u8) -> bool {
    (48u8 <= b <= 57u8) || (97u8 <= b <= 102u8)
}

pub open spec fn hyphen() -> u8 {
    45u8
}

/// The first rule of the token-identifier format (`TICKER-abcdef`: a 3-10
/// byte uppercase alphanumeric ticker, one hyphen, six lowercase hex
/// characters) that `t` breaks, in the order the rules are checked.
pub open spec fn token_id_error(t: Seq<u8>) -> Option<&'static str> {
    let h = first_index_of(t, hyphen());
    if t.len() == 0 {
        Some("token_id must not be empty")
    } else if t.len() < 8 {
        Some("token_id is too short")
    } else if t.contains(0u8) {
        Some("token_id must not contain null bytes")
    } else if count_byte(t, hyphen()) != 1 {
        Some("token_id must contain exactly one hyphen")
    } else if h < 3 {
        Some("token_id ticker is too short")
    } else if h > 10 {
        Some("token_id ticker is too long (max 10 chars)")
    } else if h + 7 != t.len() {
        Some("token_id suffix must be 6 characters")
    } else if exists|i: int| 0 <= i < h && !is_upper_or_digit(#[trigger] t[i]) {
        Some("token_id ticker must be uppercase alphanumeric")
    } else if exists|i: int| h < i < t.len() && !is_lower_hex(#[trigger] t[i]) {
        Some("token_id suffix must be lowercase hex")
    } else {
        None
    }
}

fn count_hyphens(t: &[u8]) -> (n: usize)
    ensures
        n == count_byte(t@, hyphen()),
{
    let mut n: usize = 0;
    let mut i: usize = 0;
    while i < t.len()
        invariant
            i <= t@.len(),
            n == count_byte(t@.take(i as int), hyphen()),
            n <= i,
        decreases t@.len() - i,
    {
        assert(t@.take(i as int + 1).drop_last() =~= t@.take(i as int));
        if t[i] == 45u8 {
            n = n + 1;
        }
        i = i + 1;
    }
    assert(t@.take(t@.len() as int) =~= t@);
    n
}

fn find_hyphen(t: &[u8]) -> (h: usize)
    ensures
        h == first_index_of(t@, hyphen()),
{
    let mut i: usize = 0;
    while i < t.len()
        invariant
            i <= t@.len(),
            forall|j: int| 0 <= j < i ==> t@[j] != hyphen(),
        decreases t@.len() - i,
    {
        if t[i] == 45u8 {
            let ghost c = choose|k: int| 0 <= k < t@.len() && t@[k] == hyphen() && forall|j: int| 0 <= j < k ==> t@[j] != hyphen();
            assert(t@[i as int] == hyphen());
            assert(c == i as int) by {
                if c < i as int {
                } else if c > i as int {
                    assert(t@[i as int] != hyphen());
                }
            }
            return i;
        }
        i = i + 1;
    }
    i
}

/// Validates the MultiversX token identifier format `TICKER-abcdef`.
pub fn require_valid_token_id(token_id: &[u8]) -> (r: Result<(), &'static str>)
    ensures
        match token_id_error(token_id@) {
            Some(e) => r == Err::<(), &'static str>(e),
            None => r is Ok,
        },
{
    let t = token_id;
    if t.len() == 0 {
        return Err("token_id must not be empty");
    }
    if t.len() < 8 {
        return Err("token_id is too short");
    }
    if crate::bytes::contains_byte(t, 0u8) {
        return Err("token_id must not contain null bytes");
    }
    let h = find_hyphen(t);
    if count_hyphens(t) != 1 {
        return Err("token_id must contain exactly one hyphen");
    }
    if h < 3 {
        return Err("token_id ticker is too short");
    }
    if h > 10 {
        return Err("token_id ticker is too long (max 10 chars)");
    }
    if h + 7 != t.len() {
        return Err("token_id suffix must be 6 characters");
    }
    let mut i: usize = 0;
    while i < h
        invariant
            h < t@.len(),
            h == first_index_of(t@, hyphen()),
            t@ == token_id@,
            t@.len() >= 8,
            !t@.contains(0u8),
            count_byte(t@, hyphen()) == 1,
            3 <= h <= 10,
            h + 7 == t@.len(),
            i <= h,
            forall|j: int| 0 <= j < i ==> is_upper_or_digit(#[trigger] t@[j]),
        decreases h - i,
    {
        let b = t[i];
        if !((65u8 <= b && b <= 90u8) || (48u8 <= b && b <= 57u8)) {
            assert(!is_upper_or_digit(t@[i as int]));
            assert(exists|j: int| 0 <= j < first_index_of(t@, hyphen()) && !is_upper_or_digit(#[trigger] t@[j]));
            return Err("token_id ticker must be uppercase alphanumeric");
        }
        i = i + 1;
    }
    let mut i: usize = h + 1;
    while i < t.len()
        invariant
            h < t@.len(),
            h == first_index_of(t@, hyphen()),
            t@ == token_id@,
            t@.len() >= 8,
            !t@.contains(0u8),
            count_byte(t@, hyphen()) == 1,
            3 <= h <= 10,
            h + 7 == t@.len(),
            forall|j: int| 0 <= j < h ==> is_upper_or_digit(#[trigger] t@[j]),
            h + 1 <= i <= t@.len(),
            forall|j: int| h < j < i ==> is_lower_hex(#[trigger] t@[j]),
        decreases t@.len() - i,
    {
        let b = t[i];
        if !((48u8 <= b && b <= 57u8) || (97u8 <= b && b <= 102u8)) {
            assert(!is_lower_hex(t@[i as int]));
            assert(exists|j: int| first_index_of(t@, hyphen()) < j < t@.len() && !is_lower_hex(#[trigger] t@[j]));
            return Err("token_id suffix must be lowercase hex");
        }
        i = i + 1;
    }
    Ok(())
}


// ── KYC / AML status vocabularies ───────────────────────────────────────

pub open spec fn kyc_status_allowed(s: Seq<u8>) -> bool {
    ||| s == "approved".spec_bytes()
    ||| s == "pending".spec_bytes()
    ||| s == "rejected".spec_bytes()
    ||| s == "expired".spec_bytes()
    ||| s == "not_started".spec_bytes()
    ||| s == "deactivated".spec_bytes()
}

pub open spec fn aml_status_allowed(s: Seq<u8>) -> bool {
    ||| s == "clear".spec_bytes()
    ||| s == "pending".spec_bytes()
    ||| s == "flagged".spec_bytes()
    ||| s == "review".spec_bytes()
    ||| s == "blocked".spec_bytes()
    ||| s == "not_started".spec_bytes()
    ||| s == "deactivated".spec_bytes()
}

/// The compliance vocabulary: the KYC statuses that may be recorded for a
/// holder are exactly `approved`, `pending`, `rejected`, `expired`,
/// `not_started` and `deactivated`; the AML statuses are exactly `clear`,
/// `pending`, `flagged`, `review`, `blocked`, `not_started` and
/// `deactivated`.
pub proof fn lemma_compliance_status_vocabulary(s: Seq<u8>)
    ensures
        kyc_status_allowed(s) <==> (s == lit("approved") || s == lit("pending") || s == lit("rejected") || s == lit("expired")
            || s == lit("not_started") || s == lit("deactivated")),
        aml_status_allowed(s) <==> (s == lit("clear") || s == lit("pending") || s == lit("flagged") || s == lit("review")
            || s == lit("blocked") || s == lit("not_started") || s == lit("deactivated")),
{
}

/// Validates that a KYC status is one of the allowed values.
pub fn require_valid_kyc_status(status: &[u8]) -> (r: Result<(), &'static str>)
    ensures
        kyc_status_allowed(status@) ==> r is Ok,
        !kyc_status_allowed(status@) ==> r == Err::<(), &'static str>(
            "invalid kyc_status: must be one of approved, pending, rejected, expired, not_started, deactivated",
        ),
{
    if bytes_eq(status, "approved".as_bytes()) || bytes_eq(status, "pending".as_bytes()) || bytes_eq(
        status,
        "rejected".as_bytes(),
    ) || bytes_eq(status, "expired".as_bytes()) || bytes_eq(status, "not_started".as_bytes())
        || bytes_eq(status, "deactivated".as_bytes()) {
        Ok(())
    } else {
        Err("invalid kyc_status: must be one of approved, pending, rejected, expired, not_started, deactivated")
    }
}

/// Validates that an AML status is one of the allowed values.
pub fn require_valid_aml_status(status: &[u8]) -> (r: Result<(), &'static str>)
    ensures
        aml_status_allowed(status@) ==> r is Ok,
        !aml_status_allowed(status@) ==> r == Err::<(), &'static str>(
            "invalid aml_status: must be one of clear, pending, flagged, review, blocked, not_started, deactivated",
        ),
{
    if bytes_eq(status, "clear".as_bytes()) || bytes_eq(status, "pending".as_bytes()) || bytes_eq(
        status,
        "flagged".as_bytes(),
    ) || bytes_eq(status, "review".as_bytes()) || bytes_eq(status, "blocked".as_bytes())
        || bytes_eq(status, "not_started".as_bytes()) || bytes_eq(status, "deactivated".as_bytes()) {
        Ok(())
    } else {
        Err("invalid aml_status: must be one of clear, pending, flagged, review, blocked, not_started, deactivated")
    }
}

// ── sync envelope types ─────────────────────────────────────────────────

/// Enumerates the sync operation payloads accepted by the native DRWA mirror.
#[derive(Clone, Copy, PartialEq, Eq, Structural, Debug)]
pub enum DrwaSyncOperationType {
    TokenPolicy,
    AssetRecord,
    HolderMirror,
    HolderProfile,
    HolderAuditorAuthorization,
    HolderMirrorDelete,
}

/// Identifies the contract domain that produced a sync envelope.
#[derive(Clone, Copy, PartialEq, Eq, Structural, Debug)]
pub enum DrwaCallerDomain {
    PolicyRegistry,
    AssetManager,
    IdentityRegistry,
    Attestation,
    RecoveryAdmin,
}

pub open spec fn caller_domain_tag(d: DrwaCallerDomain) -> u8 {
    match d {
        DrwaCallerDomain::PolicyRegistry => 0u8,
        DrwaCallerDomain::AssetManager => 1u8,
        DrwaCallerDomain::IdentityRegistry => 2u8,
        DrwaCallerDomain::Attestation => 3u8,
        DrwaCallerDomain::RecoveryAdmin => 4u8,
    }
}

pub open spec fn operation_type_tag(t: DrwaSyncOperationType) -> u8 {
    match t {
        DrwaSyncOperationType::TokenPolicy => 0u8,
        DrwaSyncOperationType::AssetRecord => 1u8,
        DrwaSyncOperationType::HolderMirror => 2u8,
        DrwaSyncOperationType::HolderProfile => 3u8,
        DrwaSyncOperationType::HolderAuditorAuthorization => 4u8,
        DrwaSyncOperationType::HolderMirrorDelete => 5u8,
    }
}

/// The wire tags of the sync payload: caller domains are numbered 0 to 4
/// and operation types 0 to 5 in their declaration order, so distinct
/// domains and distinct operation types never share a tag.
pub proof fn lemma_sync_tags(d1: DrwaCallerDomain, d2: DrwaCallerDomain, t1: DrwaSyncOperationType, t2: DrwaSyncOperationType)
    ensures
        caller_domain_tag(DrwaCallerDomain::PolicyRegistry) == 0,
        caller_domain_tag(DrwaCallerDomain::AssetManager) == 1,
        caller_domain_tag(DrwaCallerDomain::IdentityRegistry) == 2,
        caller_domain_tag(DrwaCallerDomain::Attestation) == 3,
        caller_domain_tag(DrwaCallerDomain::RecoveryAdmin) == 4,
        operation_type_tag(DrwaSyncOperationType::TokenPolicy) == 0,
        operation_type_tag(DrwaSyncOperationType::AssetRecord) == 1,
        operation_type_tag(DrwaSyncOperationType::HolderMirror) == 2,
        operation_type_tag(DrwaSyncOperationType::HolderProfile) == 3,
        operation_type_tag(DrwaSyncOperationType::HolderAuditorAuthorization) == 4,
        operation_type_tag(DrwaSyncOperationType::HolderMirrorDelete) == 5,
        caller_domain_tag(d1) == caller_domain_tag(d2) ==> d1 == d2,
        operation_type_tag(t1) == operation_type_tag(t2) ==> t1 == t2,
{
}

fn caller_domain_tag_of(d: &DrwaCallerDomain) -> (t: u8)
    ensures
        t == caller_domain_tag(*d),
{
    match d {
        DrwaCallerDomain::PolicyRegistry => 0u8,
        DrwaCallerDomain::AssetManager => 1u8,
        DrwaCallerDomain::IdentityRegistry => 2u8,
        DrwaCallerDomain::Attestation => 3u8,
        DrwaCallerDomain::RecoveryAdmin => 4u8,
    }
}

fn operation_type_tag_of(t: &DrwaSyncOperationType) -> (r: u8)
    ensures
        r == operation_type_tag(*t),
{
    match t {
        DrwaSyncOperationType::TokenPolicy => 0u8,
        DrwaSyncOperationType::AssetRecord => 1u8,
        DrwaSyncOperationType::HolderMirror => 2u8,
        DrwaSyncOperationType::HolderProfile => 3u8,
        DrwaSyncOperationType::HolderAuditorAuthorization => 4u8,
        DrwaSyncOperationType::HolderMirrorDelete => 5u8,
    }
}

/// Represents the per-token policy mirrored to the native DRWA layer.
pub struct DrwaTokenPolicy {
    pub drwa_enabled: bool,
    pub global_pause: bool,
    pub strict_auditor_mode: bool,
    pub metadata_protection_enabled: bool,
    pub token_policy_version: u64,
    pub allowed_investor_classes: Vec<Vec<u8>>,
    pub allowed_jurisdictions: Vec<Vec<u8>>,
}

/// Per-holder, per-token compliance state mirrored to the native DRWA layer.
pub struct DrwaHolderMirror {
    pub holder_policy_version: u64,
    pub kyc_status: Vec<u8>,
    pub aml_status: Vec<u8>,
    pub investor_class: Vec<u8>,
    pub jurisdiction_code: Vec<u8>,
    pub expiry_round: u64,
    pub transfer_locked: bool,
    pub receive_locked: bool,
    pub auditor_authorized: bool,
}

/// Per-holder identity profile mirrored to the native DRWA layer.
pub struct DrwaHolderProfile {
    pub holder_profile_version: u64,
    pub kyc_status: Vec<u8>,
    pub aml_status: Vec<u8>,
    pub investor_class: Vec<u8>,
    pub jurisdiction_code: Vec<u8>,
    pub expiry_round: u64,
}

/// Per-holder auditor authorization state mirrored to the native DRWA layer.
pub struct DrwaHolderAuditorAuthorization {
    pub holder_auditor_authorization_version: u64,
    pub auditor_authorized: bool,
}

/// Carries a single versioned sync operation inside an envelope.
pub struct DrwaSyncOperation {
    pub operation_type: DrwaSyncOperationType,
    pub token_id: Vec<u8>,
    pub holder: Vec<u8>,
    pub version: u64,
    pub body: Vec<u8>,
}

/// Wraps the caller domain, payload hash, and batched operations for mirror sync.
pub struct DrwaSyncEnvelope {
    pub caller_domain: DrwaCallerDomain,
    pub payload_hash: Vec<u8>,
    pub operations: Vec<DrwaSyncOperation>,
}

// ── canonical binary payload ────────────────────────────────────────────

/// The canonical bytes of one operation: its type tag, the length-prefixed
/// token id and holder, the big-endian version, and the length-prefixed body.
pub open spec fn operation_bytes(op: DrwaSyncOperation) -> Seq<u8> {
    seq![operation_type_tag(op.operation_type)] + len_prefixed(op.token_id@) + len_prefixed(op.holder@)
        + u64_be(op.version) + len_prefixed(op.body@)
}

/// The canonical bytes of a sequence of operations, in order.
pub open spec fn operations_bytes(ops: Seq<DrwaSyncOperation>) -> Seq<u8>
    decreases ops.len(),
{
    if ops.len() == 0 {
        Seq::empty()
    } else {
        operations_bytes(ops.drop_last()) + operation_bytes(ops.last())
    }
}

/// The canonical payload: the caller-domain tag followed by every operation.
pub open spec fn sync_payload(domain: DrwaCallerDomain, ops: Seq<DrwaSyncOperation>) -> Seq<u8> {
    seq![caller_domain_tag(domain)] + operations_bytes(ops)
}

/// Appends a value as a 4-byte big-endian length followed by its raw bytes.
pub fn push_len_prefixed(dest: &mut Vec<u8>, value: &[u8])
    ensures
        final(dest)@ == old(dest)@ + len_prefixed(value@),
{
    let len = value.len() as u32;
    push_u32_be(dest, len);
    push_bytes(dest, value);
    assert(final(dest)@ =~= old(dest)@ + len_prefixed(value@));
}

/// Serializes the canonical payload hashed and forwarded to the native mirror.
pub fn serialize_sync_envelope_payload(caller_domain: &DrwaCallerDomain, operations: &Vec<DrwaSyncOperation>) -> (r: Vec<u8>)
    ensures
        r@ == sync_payload(*caller_domain, operations@),
{
    let mut result: Vec<u8> = Vec::new();
    result.push(caller_domain_tag_of(caller_domain));
    let mut i: usize = 0;
    while i < operations.len()
        invariant
            i <= operations@.len(),
            result@ == seq![caller_domain_tag(*caller_domain)] + operations_bytes(operations@.take(i as int)),
        decreases operations@.len() - i,
    {
        let op = &operations[i];
        let ghost before = result@;
        result.push(operation_type_tag_of(&op.operation_type));
        push_len_prefixed(&mut result, &op.token_id);
        push_len_prefixed(&mut result, &op.holder);
        push_u64_be(&mut result, op.version);
        push_len_prefixed(&mut result, &op.body);
        proof {
            let t = operations@.take(i as int + 1);
            assert(t.drop_last() =~= operations@.take(i as int));
            assert(t.last() == *op);
            assert(result@ =~= before + operation_bytes(*op));
        }
        i = i + 1;
    }
    assert(operations@.take(operations@.len() as int) =~= operations@);
    result
}

/// Builds the binary hook payload passed to the native mirror:
/// the 32-byte payload hash followed by the canonical binary payload.
pub fn build_sync_hook_payload(
    caller_domain: &DrwaCallerDomain,
    operations: &Vec<DrwaSyncOperation>,
    payload_hash: &[u8],
) -> (r: Vec<u8>)
    ensures
        r@ == payload_hash@ + sync_payload(*caller_domain, operations@),
{
    let canonical_payload = serialize_sync_envelope_payload(caller_domain, operations);
    let mut result: Vec<u8> = Vec::new();
    push_bytes(&mut result, payload_hash);
    push_bytes(&mut result, &canonical_payload);
    assert(result@ =~= payload_hash@ + sync_payload(*caller_domain, operations@));
    result
}

/// The payload hash of an envelope: Keccak-256 of its canonical payload.
pub open spec fn envelope_hash(domain: DrwaCallerDomain, ops: Seq<DrwaSyncOperation>) -> Seq<u8> {
    keccak256_of(sync_payload(domain, ops))
}

/// Computes the Keccak-256 payload hash of the operations and returns the
/// envelope that the native mirror receives.
pub fn make_sync_envelope(caller_domain: DrwaCallerDomain, operations: Vec<DrwaSyncOperation>) -> (e: DrwaSyncEnvelope)
    ensures
        e.caller_domain == caller_domain,
        e.operations == operations,
        e.payload_hash@ == envelope_hash(caller_domain, operations@),
{
    let payload = serialize_sync_envelope_payload(&caller_domain, &operations);
    let payload_hash = keccak256(&payload);
    DrwaSyncEnvelope { caller_domain, payload_hash, operations }
}

/// The hook payload of an envelope: its hash followed by its canonical payload.
pub fn envelope_hook_payload(envelope: &DrwaSyncEnvelope) -> (r: Vec<u8>)
    ensures
        r@ == envelope.payload_hash@ + sync_payload(envelope.caller_domain, envelope.operations@),
{
    build_sync_hook_payload(&envelope.caller_domain, &envelope.operations, &envelope.payload_hash)
}

/// The native mirror hook reports success with status `0`; any other status
/// reverts the whole transaction.
pub fn check_sync_hook_status(status: i32) -> (r: Result<(), &'static str>)
    ensures
        status == 0 ==> r is Ok,
        status != 0 ==> r == Err::<(), &'static str>("native mirror sync failed"),
{
    if status == 0 {
        Ok(())
    } else {
        Err("native mirror sync failed")
    }
}

// ── governance module ───────────────────────────────────────────────────

pub const DRWA_PENDING_GOVERNANCE_ACCEPTANCE_ROUNDS: u64 = 1_000;

pub open spec fn saturating_add_u64(a: u64, b: u64) -> u64 {
    if a + b > u64::MAX { u64::MAX } else { (a + b) as u64 }
}

/// Two-step governance transfer shared by the DRWA contracts. The owner
/// proposes, the proposed address accepts within the window, and the owner
/// may revoke governance at any time.
pub struct DrwaGovernanceState {
    pub governance: Option<Vec<u8>>,
    pub pending_governance: Option<Vec<u8>>,
    pub pending_governance_expires_at_round: u64,
}

impl DrwaGovernanceState {
    pub fn with_governance(governance: Vec<u8>) -> (m: Self)
        ensures
            m.governance == Some(governance),
            m.pending_governance is None,
            m.pending_governance_expires_at_round == 0,
    {
        DrwaGovernanceState { governance: Some(governance), pending_governance: None, pending_governance_expires_at_round: 0 }
    }

    /// Whether the caller is the configured governance or the owner.
    pub open spec fn is_governance_or_owner(&self, caller: Seq<u8>, owner: Seq<u8>) -> bool {
        (self.governance is Some && caller == self.governance->0@) || caller == owner
    }

    pub open spec fn set_governance_error(&self, env: &BlockchainEnv, governance: Seq<u8>) -> Option<&'static str> {
        if env.caller@ != env.owner@ {
            Some("Endpoint can only be called by owner")
        } else if governance == zero_address() {
            Some("governance must not be zero")
        } else {
            None
        }
    }

    pub open spec fn accept_governance_error(&self, env: &BlockchainEnv) -> Option<&'static str> {
        match self.pending_governance {
            None => Some("pending governance not set"),
            Some(p) => if env.block_round > self.pending_governance_expires_at_round {
                Some("pending governance acceptance expired")
            } else if env.caller@ != p@ {
                Some("caller not pending governance")
            } else {
                None
            },
        }
    }
}

/// The events of the governance transfer.
#[derive(Debug, PartialEq, Eq)]
pub enum DrwaGovernanceEvent {
    /// A governance address was proposed.
    Proposed { governance: Vec<u8> },
    /// The pending governance accepted the role.
    Accepted { governance: Vec<u8> },
    /// Governance was revoked; `previous` is the address it had (zero when none).
    Revoked { previous: Vec<u8> },
}

/// The governance endpoints that the DRWA contracts share.
pub trait DrwaGovernanceModule {
    /// Allows either the configured governance address or the contract owner.
    fn require_governance_or_owner(&self, env: &BlockchainEnv) -> (r: Result<(), &'static str>);

    /// The owner proposes a new governance address and starts the
    /// acceptance window.
    fn set_governance(&mut self, env: &BlockchainEnv, governance: Vec<u8>) -> (r: Result<DrwaGovernanceEvent, &'static str>);

    /// The pending governance accepts the role before its window expires.
    fn accept_governance(&mut self, env: &BlockchainEnv) -> (r: Result<DrwaGovernanceEvent, &'static str>);

    /// The owner revokes governance, clearing active and pending governance.
    fn revoke_governance(&mut self, env: &BlockchainEnv) -> (r: Result<DrwaGovernanceEvent, &'static str>);
}

impl DrwaGovernanceModule for DrwaGovernanceState {
    /// Allows either the configured governance address or the contract owner.
    fn require_governance_or_owner(&self, env: &BlockchainEnv) -> (r: Result<(), &'static str>)
        ensures
            self.is_governance_or_owner(env.caller@, env.owner@) ==> r is Ok,
            !self.is_governance_or_owner(env.caller@, env.owner@) ==> r == Err::<(), &'static str>("caller not authorized"),
    {
        if let Some(g) = &self.governance {
            if bytes_eq(&env.caller, g) {
                return Ok(());
            }
        }
        if bytes_eq(&env.caller, &env.owner) {
            Ok(())
        } else {
            Err("caller not authorized")
        }
    }

    /// The owner proposes a new governance address and starts the
    /// acceptance window.
    fn set_governance(&mut self, env: &BlockchainEnv, governance: Vec<u8>) -> (r: Result<DrwaGovernanceEvent, &'static str>)
        ensures
            match old(self).set_governance_error(env, governance@) {
                Some(e) => r == Err::<DrwaGovernanceEvent, &'static str>(e) && *final(self) == *old(self),
                None => {
                    &&& r matches Ok(DrwaGovernanceEvent::Proposed { governance: g }) && g@ == governance@
                    &&& final(self).governance == old(self).governance
                    &&& final(self).pending_governance == Some(governance)
                    &&& final(self).pending_governance_expires_at_round
                        == saturating_add_u64(env.block_round, DRWA_PENDING_GOVERNANCE_ACCEPTANCE_ROUNDS)
                },
            },
    {
        if !bytes_eq(&env.caller, &env.owner) {
            return Err("Endpoint can only be called by owner");
        }
        if is_zero_address(&governance) {
            return Err("governance must not be zero");
        }
        let expires = if env.block_round > u64::MAX - DRWA_PENDING_GOVERNANCE_ACCEPTANCE_ROUNDS {
            u64::MAX
        } else {
            env.block_round + DRWA_PENDING_GOVERNANCE_ACCEPTANCE_ROUNDS
        };
        let event = DrwaGovernanceEvent::Proposed { governance: copy_bytes(&governance) };
        self.pending_governance = Some(governance);
        self.pending_governance_expires_at_round = expires;
        Ok(event)
    }

    /// The pending governance accepts the role before its window expires.
    fn accept_governance(&mut self, env: &BlockchainEnv) -> (r: Result<DrwaGovernanceEvent, &'static str>)
        ensures
            match old(self).accept_governance_error(env) {
                Some(e) => r == Err::<DrwaGovernanceEvent, &'static str>(e) && *final(self) == *old(self),
                None => {
                    &&& r matches Ok(DrwaGovernanceEvent::Accepted { governance: g }) && g@ == old(self).pending_governance->0@
                    &&& final(self).governance == old(self).pending_governance
                    &&& final(self).pending_governance is None
                    &&& final(self).pending_governance_expires_at_round == 0
                },
            },
    {
        let expires = self.pending_governance_expires_at_round;
        match &self.pending_governance {
            None => {
                return Err("pending governance not set");
            },
            Some(p) => {
                if env.block_round > expires {
                    return Err("pending governance acceptance expired");
                }
                if !bytes_eq(&env.caller, p) {
                    return Err("caller not pending governance");
                }
            },
        }
        let event = match &self.pending_governance {
            Some(p) => DrwaGovernanceEvent::Accepted { governance: copy_bytes(p) },
            None => DrwaGovernanceEvent::Accepted { governance: Vec::new() },
        };
        self.governance = self.pending_governance.take();
        self.pending_governance_expires_at_round = 0;
        Ok(event)
    }

    /// The owner revokes governance, clearing active and pending governance.
    fn revoke_governance(&mut self, env: &BlockchainEnv) -> (r: Result<DrwaGovernanceEvent, &'static str>)
        ensures
            env.caller@ != env.owner@ ==> r == Err::<DrwaGovernanceEvent, &'static str>("Endpoint can only be called by owner") && *final(self) == *old(self),
            env.caller@ == env.owner@ ==> {
                &&& r matches Ok(DrwaGovernanceEvent::Revoked { previous }) && previous@ == match old(self).governance {
                    Some(g) => g@,
                    None => zero_address(),
                }
                &&& final(self).governance is None
                &&& final(self).pending_governance is None
                &&& final(self).pending_governance_expires_at_round == 0
            },
    {
        if !bytes_eq(&env.caller, &env.owner) {
            return Err("Endpoint can only be called by owner");
        }
        let previous = match &self.governance {
            Some(g) => copy_bytes(g),
            None => new_zero_address(),
        };
        self.governance = None;
        self.pending_governance = None;
        self.pending_governance_expires_at_round = 0;
        Ok(DrwaGovernanceEvent::Revoked { previous })
    }
}

} // verus!
