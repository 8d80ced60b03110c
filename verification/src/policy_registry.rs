//! DRWA policy registry: per-token compliance policies and MiCA fields,
//! each change versioned and synced to the native mirror as a JSON body.
//!
//! Every endpoint that syncs the mirror takes `hook_status`, the status the
//! native mirror hook returns for the call's hook payload (the returned
//! envelope's hash followed by its canonical payload). A non-zero status
//! refuses the call with "native mirror sync failed" and leaves the storage
//! as it was, so that the contract and the mirror never diverge.
use vstd::prelude::*;

use crate::aggregator::views;
use crate::asset_manager::{code_valid, is_valid_code};
use crate::bytes::{bytes_eq, copy_bytes, is_zero_address, lemma_ascii_lit, lit, new_zero_address, push_bytes, zero_address};
use crate::drwa_common::{
    check_sync_hook_status, envelope_hash, make_sync_envelope, require_valid_token_id, token_id_error, DrwaCallerDomain, DrwaGovernanceModule,
    DrwaGovernanceState, DrwaSyncEnvelope, DrwaSyncOperation, DrwaSyncOperationType, DrwaTokenPolicy,
};
use crate::env::BlockchainEnv;
use crate::table::Table;
use vstd::seq_lib::lemma_concat_associative;

verus! {

pub const MAX_INVESTOR_CLASSES: usize = 100;

pub const MAX_JURISDICTIONS: usize = 200;

/// The storage of the policy registry.
pub struct PolicyRegistryState {
    pub gov: DrwaGovernanceState,
    /// Policies by token id.
    pub token_policies: Table<DrwaTokenPolicy>,
    /// Policy versions by token id; absent reads as `0`.
    pub token_policy_versions: Table<u64>,
    pub white_paper_cids: Table<Vec<u8>>,
    pub registration_statuses: Table<Vec<u8>>,
    pub storage_version: u32,
}

// ── JSON bodies ─────────────────────────────────────────────────────────

pub open spec fn json_bool(b: bool) -> Seq<u8> {
    if b { lit("true") } else { lit("false") }
}

/// One allow-list entry: `"key":true`.
pub open spec fn json_entry(key: Seq<u8>) -> Seq<u8> {
    lit("\"") + key + lit("\":true")
}

/// The allow-list entries, comma-separated.
pub open spec fn json_entries(keys: Seq<Seq<u8>>) -> Seq<u8>
    decreases keys.len(),
{
    if keys.len() == 0 {
        Seq::empty()
    } else if keys.len() == 1 {
        json_entry(keys[0])
    } else {
        json_entries(keys.drop_last()) + lit(",") + json_entry(keys.last())
    }
}

/// An allow-list field, present only when the list is not empty.
pub open spec fn json_list_field(name: Seq<u8>, keys: Seq<Seq<u8>>) -> Seq<u8> {
    if keys.len() == 0 {
        Seq::empty()
    } else {
        lit(",\"") + name + lit("\":{") + json_entries(keys) + lit("}")
    }
}

/// The four flags of the JSON body, after its opening brace.
pub open spec fn flags_json(drwa_enabled: bool, global_pause: bool, strict_auditor_mode: bool, metadata_protection_enabled: bool) -> Seq<u8> {
    lit("{\"drwa_enabled\":") + json_bool(drwa_enabled) + lit(",\"global_pause\":") + json_bool(global_pause) + lit(
        ",\"strict_auditor_mode\":",
    ) + json_bool(strict_auditor_mode) + lit(",\"metadata_protection_enabled\":") + json_bool(metadata_protection_enabled)
}

/// The policy fields of the JSON body, without the closing brace.
pub open spec fn policy_json_open(p: DrwaTokenPolicy) -> Seq<u8> {
    flags_json(p.drwa_enabled, p.global_pause, p.strict_auditor_mode, p.metadata_protection_enabled) + json_list_field(
        lit("allowed_investor_classes"),
        views(p.allowed_investor_classes@),
    ) + json_list_field(lit("allowed_jurisdictions"), views(p.allowed_jurisdictions@))
}

/// The JSON body of a policy (its version travels in the operation).
pub open spec fn policy_json(p: DrwaTokenPolicy) -> Seq<u8> {
    policy_json_open(p) + lit("}")
}

/// The MiCA fields given, as they follow the policy fields.
pub open spec fn mica_fields(cid: Option<Seq<u8>>, status: Option<Seq<u8>>) -> Seq<u8> {
    (match cid {
        Some(c) => lit(",\"white_paper_cid\":\"") + c + lit("\""),
        None => Seq::empty(),
    }) + (match status {
        Some(s) => lit(",\"registration_status\":\"") + s + lit("\""),
        None => Seq::empty(),
    })
}

/// The policy fields of a token that has no policy yet: every flag off and
/// no allow-list.
pub open spec fn blank_policy_json_open() -> Seq<u8> {
    flags_json(false, false, false, false)
}

/// Why an allow-list entry cannot serve as a JSON key: empty, or a byte
/// outside `[A-Za-z0-9._-]`.
pub open spec fn key_json_error(k: Seq<u8>) -> Option<&'static str> {
    if k.len() == 0 {
        Some("policy key must not be empty")
    } else if !code_valid(k) {
        Some("policy key contains unsupported character")
    } else {
        None
    }
}

/// Why an allow-list entry cannot serve as a JSON value, under the same
/// character set as keys.
pub open spec fn value_json_error(v: Seq<u8>) -> Option<&'static str> {
    if v.len() == 0 {
        Some("policy value must not be empty")
    } else if !code_valid(v) {
        Some("policy value contains unsupported character")
    } else {
        None
    }
}

/// The first reason an allow-list entry cannot be embedded in the JSON
/// body, entry by entry, checked as a key and then as a value.
pub open spec fn list_json_error(keys: Seq<Seq<u8>>) -> Option<&'static str>
    decreases keys.len(),
{
    if keys.len() == 0 {
        None
    } else if key_json_error(keys[0]) is Some {
        key_json_error(keys[0])
    } else if value_json_error(keys[0]) is Some {
        value_json_error(keys[0])
    } else {
        list_json_error(keys.drop_first())
    }
}

/// Validates that a policy key is safe to embed in the hand-built JSON body.
fn require_json_safe_key(key: &[u8]) -> (r: Result<(), &'static str>)
    ensures
        match key_json_error(key@) {
            Some(e) => r == Err::<(), &'static str>(e),
            None => r is Ok,
        },
{
    if key.len() == 0 {
        return Err("policy key must not be empty");
    }
    if !is_valid_code(key) {
        return Err("policy key contains unsupported character");
    }
    Ok(())
}

/// Validates that a policy value is safe to embed in the hand-built JSON
/// body.
fn require_json_safe_value(value: &[u8]) -> (r: Result<(), &'static str>)
    ensures
        match value_json_error(value@) {
            Some(e) => r == Err::<(), &'static str>(e),
            None => r is Ok,
        },
{
    if value.len() == 0 {
        return Err("policy value must not be empty");
    }
    if !is_valid_code(value) {
        return Err("policy value contains unsupported character");
    }
    Ok(())
}

/// The first allow-list entry of either list, investor classes first, that
/// cannot be embedded in the JSON body.
pub open spec fn lists_json_error(classes: Seq<Seq<u8>>, jurisdictions: Seq<Seq<u8>>) -> Option<&'static str> {
    if list_json_error(classes) is Some {
        list_json_error(classes)
    } else {
        list_json_error(jurisdictions)
    }
}

pub open spec fn policy_json_error(p: DrwaTokenPolicy) -> Option<&'static str> {
    lists_json_error(views(p.allowed_investor_classes@), views(p.allowed_jurisdictions@))
}

/// Checks that every entry is a non-empty JSON-safe key.
fn check_json_list(keys: &Vec<Vec<u8>>) -> (r: Result<(), &'static str>)
    ensures
        match list_json_error(views(keys@)) {
            Some(e) => r == Err::<(), &'static str>(e),
            None => r is Ok,
        },
{
    let mut i: usize = 0;
    let ghost all = views(keys@);
    assert(all.skip(0) =~= all);
    while i < keys.len()
        invariant
            i <= keys@.len(),
            all == views(keys@),
            list_json_error(all) == list_json_error(all.skip(i as int)),
        decreases keys@.len() - i,
    {
        let key = &keys[i];
        assert(all.skip(i as int)[0] == key@);
        assert(all.skip(i as int).drop_first() =~= all.skip(i + 1));
        if let Err(e) = require_json_safe_key(key) {
            return Err(e);
        }
        if let Err(e) = require_json_safe_value(key) {
            return Err(e);
        }
        i = i + 1;
    }
    assert(all.skip(keys@.len() as int) =~= Seq::<Seq<u8>>::empty());
    Ok(())
}

/// Appends the comma-separated allow-list entries.
fn push_json_entries(out: &mut Vec<u8>, keys: &Vec<Vec<u8>>)
    ensures
        final(out)@ == old(out)@ + json_entries(views(keys@)),
{
    let ghost all = views(keys@);
    let mut i: usize = 0;
    assert(all.take(0) =~= Seq::<Seq<u8>>::empty());
    while i < keys.len()
        invariant
            i <= keys@.len(),
            all == views(keys@),
            out@ == old(out)@ + json_entries(all.take(i as int)),
        decreases keys@.len() - i,
    {
        let ghost before = out@;
        if i > 0 {
            push_bytes(out, ",".as_bytes());
        }
        push_bytes(out, "\"".as_bytes());
        push_bytes(out, &keys[i]);
        push_bytes(out, "\":true".as_bytes());
        proof {
            let t = all.take(i + 1);
            assert(t.drop_last() =~= all.take(i as int));
            assert(t.last() == keys@[i as int]@);
            if i == 0 {
                assert(t.len() == 1);
                assert(t[0] == keys@[0]@);
                assert(json_entries(all.take(0)) =~= Seq::<u8>::empty());
            }
            assert(out@ =~= old(out)@ + json_entries(t));
        }
        i = i + 1;
    }
    assert(all.take(keys@.len() as int) =~= all);
}

/// Appends `true` or `false`.
fn push_json_bool(out: &mut Vec<u8>, b: bool)
    ensures
        final(out)@ == old(out)@ + json_bool(b),
{
    if b {
        push_bytes(out, "true".as_bytes());
    } else {
        push_bytes(out, "false".as_bytes());
    }
}

fn push_json_list_field(out: &mut Vec<u8>, name: &str, keys: &Vec<Vec<u8>>)
    ensures
        final(out)@ == old(out)@ + json_list_field(lit(name), views(keys@)),
{
    if keys.len() > 0 {
        push_bytes(out, ",\"".as_bytes());
        push_bytes(out, name.as_bytes());
        push_bytes(out, "\":{".as_bytes());
        push_json_entries(out, keys);
        push_bytes(out, "}".as_bytes());
        assert(final(out)@ =~= old(out)@ + json_list_field(lit(name), views(keys@)));
    } else {
        assert(views(keys@).len() == 0);
        assert(final(out)@ =~= old(out)@ + json_list_field(lit(name), views(keys@)));
    }
}

/// Appends `value` to `out`, whose bytes so far are `base` followed by `acc`.
proof fn lemma_append_step(base: Seq<u8>, acc: Seq<u8>, value: Seq<u8>)
    ensures
        (base + acc) + value == base + (acc + value),
{
    lemma_concat_associative(base, acc, value);
}

/// Appends the four flags of the JSON body.
fn push_flags_json(out: &mut Vec<u8>, drwa_enabled: bool, global_pause: bool, strict_auditor_mode: bool, metadata_protection_enabled: bool)
    ensures
        final(out)@ == old(out)@ + flags_json(drwa_enabled, global_pause, strict_auditor_mode, metadata_protection_enabled),
{
    let ghost o = out@;
    push_bytes(out, "{\"drwa_enabled\":".as_bytes());
    let ghost a1 = lit("{\"drwa_enabled\":");
    push_json_bool(out, drwa_enabled);
    proof { lemma_append_step(o, a1, json_bool(drwa_enabled)); }
    let ghost a2 = a1 + json_bool(drwa_enabled);
    push_bytes(out, ",\"global_pause\":".as_bytes());
    proof { lemma_append_step(o, a2, lit(",\"global_pause\":")); }
    let ghost a3 = a2 + lit(",\"global_pause\":");
    push_json_bool(out, global_pause);
    proof { lemma_append_step(o, a3, json_bool(global_pause)); }
    let ghost a4 = a3 + json_bool(global_pause);
    push_bytes(out, ",\"strict_auditor_mode\":".as_bytes());
    proof { lemma_append_step(o, a4, lit(",\"strict_auditor_mode\":")); }
    let ghost a5 = a4 + lit(",\"strict_auditor_mode\":");
    push_json_bool(out, strict_auditor_mode);
    proof { lemma_append_step(o, a5, json_bool(strict_auditor_mode)); }
    let ghost a6 = a5 + json_bool(strict_auditor_mode);
    push_bytes(out, ",\"metadata_protection_enabled\":".as_bytes());
    proof { lemma_append_step(o, a6, lit(",\"metadata_protection_enabled\":")); }
    let ghost a7 = a6 + lit(",\"metadata_protection_enabled\":");
    push_json_bool(out, metadata_protection_enabled);
    proof { lemma_append_step(o, a7, json_bool(metadata_protection_enabled)); }
}

/// The policy fields of the JSON body, without the closing brace.
fn push_policy_json_open(out: &mut Vec<u8>, policy: &DrwaTokenPolicy)
    ensures
        final(out)@ == old(out)@ + policy_json_open(*policy),
{
    let ghost o = out@;
    let ghost p = *policy;
    push_flags_json(out, policy.drwa_enabled, policy.global_pause, policy.strict_auditor_mode, policy.metadata_protection_enabled);
    let ghost f = flags_json(p.drwa_enabled, p.global_pause, p.strict_auditor_mode, p.metadata_protection_enabled);
    push_json_list_field(out, "allowed_investor_classes", &policy.allowed_investor_classes);
    let ghost l1 = json_list_field(lit("allowed_investor_classes"), views(p.allowed_investor_classes@));
    push_json_list_field(out, "allowed_jurisdictions", &policy.allowed_jurisdictions);
    let ghost l2 = json_list_field(lit("allowed_jurisdictions"), views(p.allowed_jurisdictions@));
    proof {
        lemma_concat_associative(o, f, l1);
        lemma_concat_associative(o, f + l1, l2);
    }
}

/// Serializes the JSON policy body expected by the native mirror, after
/// checking that every allow-list entry is JSON-safe.
pub fn serialize_policy_json(policy: &DrwaTokenPolicy) -> (r: Result<Vec<u8>, &'static str>)
    ensures
        match policy_json_error(*policy) {
            Some(e) => r == Err::<Vec<u8>, &'static str>(e),
            None => r matches Ok(b) && b@ == policy_json(*policy),
        },
{
    if let Err(e) = check_json_list(&policy.allowed_investor_classes) {
        return Err(e);
    }
    if let Err(e) = check_json_list(&policy.allowed_jurisdictions) {
        return Err(e);
    }
    let mut body: Vec<u8> = Vec::new();
    push_policy_json_open(&mut body, policy);
    push_bytes(&mut body, "}".as_bytes());
    assert(body@ =~= policy_json(*policy));
    Ok(body)
}


// ── MiCA fields ─────────────────────────────────────────────────────────

pub open spec fn is_alnum(b: u8) -> bool {
    (48u8 <= b <= 57u8) || (65u8 <= b <= 90u8) || (97u8 <= b <= 122u8)
}

pub open spec fn has_prefix(s: Seq<u8>, prefix: Seq<u8>) -> bool {
    prefix.len() <= s.len() && s.take(prefix.len() as int) == prefix
}

/// The first rule of the white-paper CID format (46 to 64 alphanumeric
/// bytes starting with `Qm` or `bafy`) that `cid` breaks.
pub open spec fn cid_error(cid: Seq<u8>) -> Option<&'static str> {
    if cid.len() == 0 {
        Some("white paper CID is required")
    } else if !(46 <= cid.len() <= 64) {
        Some("invalid CID length: must be 46-64 characters")
    } else if !has_prefix(cid, lit("Qm")) && !has_prefix(cid, lit("bafy")) {
        Some("CID must start with Qm (v0) or bafy (v1)")
    } else if exists|i: int| 0 <= i < cid.len() && !is_alnum(#[trigger] cid[i]) {
        Some("CID contains invalid byte: only alphanumeric characters (a-z, A-Z, 0-9) allowed")
    } else {
        None
    }
}

pub open spec fn registration_status_allowed(s: Seq<u8>) -> bool {
    ||| s == lit("draft")
    ||| s == lit("submitted")
    ||| s == lit("approved")
    ||| s == lit("rejected")
    ||| s == lit("withdrawn")
}

/// The MiCA registration statuses are exactly `draft`, `submitted`,
/// `approved`, `rejected` and `withdrawn`.
pub proof fn lemma_registration_status_vocabulary(s: Seq<u8>)
    ensures
        registration_status_allowed(s) <==> (s == lit("draft") || s == lit("submitted") || s == lit("approved") || s == lit(
            "rejected",
        ) || s == lit("withdrawn")),
{
}

/// Whether `s` starts with `prefix`.
fn starts_with(s: &[u8], prefix: &[u8]) -> (r: bool)
    ensures
        r == has_prefix(s@, prefix@),
{
    if prefix.len() > s.len() {
        return false;
    }
    let mut i: usize = 0;
    while i < prefix.len()
        invariant
            prefix@.len() <= s@.len(),
            i <= prefix@.len(),
            forall|j: int| 0 <= j < i ==> s@[j] == prefix@[j],
        decreases prefix@.len() - i,
    {
        if s[i] != prefix[i] {
            assert(s@.take(prefix@.len() as int)[i as int] != prefix@[i as int]);
            return false;
        }
        i = i + 1;
    }
    assert(s@.take(prefix@.len() as int) =~= prefix@);
    true
}

/// A white-paper CID is accepted exactly when it has 46 to 64 bytes, all
/// ASCII letters or digits, and begins with `Qm` (version 0) or `bafy`
/// (version 1).
pub proof fn lemma_cid_format(cid: Seq<u8>)
    ensures
        cid_error(cid) is None <==> {
            &&& 46 <= cid.len() <= 64
            &&& (cid.subrange(0, 2) == lit("Qm") || cid.subrange(0, 4) == lit("bafy"))
            &&& forall|i: int| 0 <= i < cid.len() ==> is_alnum(#[trigger] cid[i])
        },
{
    reveal_strlit("Qm");
    reveal_strlit("bafy");
    lemma_ascii_lit("Qm");
    lemma_ascii_lit("bafy");
    if 46 <= cid.len() <= 64 {
        assert(cid.take(2) =~= cid.subrange(0, 2));
        assert(cid.take(4) =~= cid.subrange(0, 4));
    }
}

/// Checks the white-paper CID format.
fn check_cid(cid: &[u8]) -> (r: Result<(), &'static str>)
    ensures
        match cid_error(cid@) {
            Some(e) => r == Err::<(), &'static str>(e),
            None => r is Ok,
        },
{
    if cid.len() == 0 {
        return Err("white paper CID is required");
    }
    if cid.len() < 46 || cid.len() > 64 {
        return Err("invalid CID length: must be 46-64 characters");
    }
    if !starts_with(cid, "Qm".as_bytes()) && !starts_with(cid, "bafy".as_bytes()) {
        return Err("CID must start with Qm (v0) or bafy (v1)");
    }
    let mut i: usize = 0;
    while i < cid.len()
        invariant
            i <= cid@.len(),
            46 <= cid@.len() <= 64,
            has_prefix(cid@, lit("Qm")) || has_prefix(cid@, lit("bafy")),
            forall|j: int| 0 <= j < i ==> #[trigger] is_alnum(cid@[j]),
        decreases cid@.len() - i,
    {
        let b = cid[i];
        if !((48u8 <= b && b <= 57u8) || (65u8 <= b && b <= 90u8) || (97u8 <= b && b <= 122u8)) {
            assert(!is_alnum(cid@[i as int]));
            return Err("CID contains invalid byte: only alphanumeric characters (a-z, A-Z, 0-9) allowed");
        }
        i = i + 1;
    }
    Ok(())
}

fn is_registration_status(status: &[u8]) -> (r: bool)
    ensures
        r == registration_status_allowed(status@),
{
    bytes_eq(status, "draft".as_bytes()) || bytes_eq(status, "submitted".as_bytes()) || bytes_eq(status, "approved".as_bytes())
        || bytes_eq(status, "rejected".as_bytes()) || bytes_eq(status, "withdrawn".as_bytes())
}

/// Appends the MiCA fields given.
fn push_mica_fields(out: &mut Vec<u8>, white_paper_cid: Option<&Vec<u8>>, registration_status: Option<&Vec<u8>>)
    ensures
        final(out)@ == old(out)@ + mica_fields(
            match white_paper_cid {
                Some(c) => Some(c@),
                None => None,
            },
            match registration_status {
                Some(s) => Some(s@),
                None => None,
            },
        ),
{
    if let Some(cid) = white_paper_cid {
        push_bytes(out, ",\"white_paper_cid\":\"".as_bytes());
        push_bytes(out, cid);
        push_bytes(out, "\"".as_bytes());
    }
    if let Some(status) = registration_status {
        push_bytes(out, ",\"registration_status\":\"".as_bytes());
        push_bytes(out, status);
        push_bytes(out, "\"".as_bytes());
    }
    assert(final(out)@ =~= old(out)@ + mica_fields(
        match white_paper_cid {
            Some(c) => Some(c@),
            None => None,
        },
        match registration_status {
            Some(s) => Some(s@),
            None => None,
        },
    ));
}

// ── contract state ──────────────────────────────────────────────────────

/// `e` is a policy-registry envelope carrying one token-policy operation.
pub open spec fn policy_envelope(e: DrwaSyncEnvelope, token_id: Seq<u8>, version: u64, body: Seq<u8>) -> bool {
    &&& e.caller_domain == DrwaCallerDomain::PolicyRegistry
    &&& e.operations@.len() == 1
    &&& e.operations@[0].operation_type == DrwaSyncOperationType::TokenPolicy
    &&& e.operations@[0].token_id@ == token_id
    &&& e.operations@[0].holder@ == zero_address()
    &&& e.operations@[0].version == version
    &&& e.operations@[0].body@ == body
    &&& e.payload_hash@ == envelope_hash(e.caller_domain, e.operations@)
}

fn policy_envelope_of(token_id: Vec<u8>, version: u64, body: Vec<u8>) -> (e: DrwaSyncEnvelope)
    ensures
        policy_envelope(e, token_id@, version, body@),
{
    let mut operations: Vec<DrwaSyncOperation> = Vec::new();
    operations.push(
        DrwaSyncOperation {
            operation_type: DrwaSyncOperationType::TokenPolicy,
            token_id,
            holder: new_zero_address(),
            version,
            body,
        },
    );
    make_sync_envelope(DrwaCallerDomain::PolicyRegistry, operations)
}

impl PolicyRegistryState {
    /// The tables are well formed and every stored policy can be embedded in
    /// the JSON body.
    pub open spec fn wf(&self) -> bool {
        &&& self.token_policies.wf()
        &&& self.token_policy_versions.wf()
        &&& self.white_paper_cids.wf()
        &&& self.registration_statuses.wf()
        &&& forall|t: Seq<u8>| #[trigger]
            self.token_policies@.contains_key(t) ==> policy_json_error(self.token_policies@[t]) is None
    }

    pub open spec fn auth_error(&self, env: &BlockchainEnv) -> Option<&'static str> {
        if self.gov.is_governance_or_owner(env.caller@, env.owner@) { None } else { Some("caller not authorized") }
    }

    /// The policy version of a token (`0` before its first change).
    pub open spec fn version(&self, token_id: Seq<u8>) -> u64 {
        if self.token_policy_versions@.contains_key(token_id) { self.token_policy_versions@[token_id] } else { 0 }
    }

    /// The policy fields that a MiCA update carries: those of the stored
    /// policy, or of a blank one.
    pub open spec fn policy_open(&self, token_id: Seq<u8>) -> Seq<u8> {
        if self.token_policies@.contains_key(token_id) {
            policy_json_open(self.token_policies@[token_id])
        } else {
            blank_policy_json_open()
        }
    }

    /// The rules shared by every mutating endpoint.
    pub open spec fn token_error(&self, env: &BlockchainEnv, token_id: Seq<u8>) -> Option<&'static str> {
        if self.auth_error(env) is Some {
            self.auth_error(env)
        } else {
            token_id_error(token_id)
        }
    }

    pub open spec fn set_token_policy_error(
        &self,
        env: &BlockchainEnv,
        token_id: Seq<u8>,
        classes: Seq<Seq<u8>>,
        jurisdictions: Seq<Seq<u8>>,
    ) -> Option<&'static str> {
        if self.token_error(env, token_id) is Some {
            self.token_error(env, token_id)
        } else if classes.len() > MAX_INVESTOR_CLASSES {
            Some("too many investor classes: max 100")
        } else if jurisdictions.len() > MAX_JURISDICTIONS {
            Some("too many jurisdictions: max 200")
        } else if self.version(token_id) == u64::MAX {
            Some("token policy version overflow")
        } else {
            lists_json_error(classes, jurisdictions)
        }
    }

    pub open spec fn deactivate_error(&self, env: &BlockchainEnv, token_id: Seq<u8>) -> Option<&'static str> {
        if self.token_error(env, token_id) is Some {
            self.token_error(env, token_id)
        } else if !self.token_policies@.contains_key(token_id) {
            Some("token policy does not exist")
        } else if self.version(token_id) == u64::MAX {
            Some("token policy version overflow")
        } else {
            None
        }
    }

    pub open spec fn white_paper_cid_error(&self, env: &BlockchainEnv, token_id: Seq<u8>, cid: Seq<u8>) -> Option<&'static str> {
        if self.token_error(env, token_id) is Some {
            self.token_error(env, token_id)
        } else if cid_error(cid) is Some {
            cid_error(cid)
        } else if self.version(token_id) == u64::MAX {
            Some("token policy version overflow")
        } else {
            None
        }
    }

    pub open spec fn registration_status_error(&self, env: &BlockchainEnv, token_id: Seq<u8>, status: Seq<u8>) -> Option<&'static str> {
        if self.token_error(env, token_id) is Some {
            self.token_error(env, token_id)
        } else if !registration_status_allowed(status) {
            Some("invalid registration status: must be draft, submitted, approved, rejected, or withdrawn")
        } else if self.version(token_id) == u64::MAX {
            Some("token policy version overflow")
        } else {
            None
        }
    }

    fn version_of(&self, token_id: &[u8]) -> (v: u64)
        requires
            self.wf(),
        ensures
            v == self.version(token_id@),
    {
        match self.token_policy_versions.get(token_id) {
            Some(v) => *v,
            None => 0,
        }
    }

    fn check_token(&self, env: &BlockchainEnv, token_id: &[u8]) -> (r: Result<(), &'static str>)
        ensures
            match self.token_error(env, token_id@) {
                Some(e) => r == Err::<(), &'static str>(e),
                None => r is Ok,
            },
    {
        if let Err(e) = self.gov.require_governance_or_owner(env) {
            return Err(e);
        }
        require_valid_token_id(token_id)
    }

    /// The complete policy JSON of a token (its stored policy, or a blank
    /// one) with the given MiCA fields appended before the closing brace.
    pub fn serialize_full_policy_with_mica_json(
        &self,
        token_id: &[u8],
        white_paper_cid: Option<&Vec<u8>>,
        registration_status: Option<&Vec<u8>>,
    ) -> (r: Vec<u8>)
        requires
            self.wf(),
        ensures
            r@ == self.policy_open(token_id@) + mica_fields(
                match white_paper_cid {
                    Some(c) => Some(c@),
                    None => None,
                },
                match registration_status {
                    Some(s) => Some(s@),
                    None => None,
                },
            ) + lit("}"),
    {
        let mut body: Vec<u8> = Vec::new();
        match self.token_policies.get(token_id) {
            Some(policy) => push_policy_json_open(&mut body, policy),
            None => {
                let blank = DrwaTokenPolicy {
                    drwa_enabled: false,
                    global_pause: false,
                    strict_auditor_mode: false,
                    metadata_protection_enabled: false,
                    token_policy_version: 0,
                    allowed_investor_classes: Vec::new(),
                    allowed_jurisdictions: Vec::new(),
                };
                push_policy_json_open(&mut body, &blank);
                assert(views(blank.allowed_investor_classes@).len() == 0);
                assert(views(blank.allowed_jurisdictions@).len() == 0);
                assert(policy_json_open(blank) =~= blank_policy_json_open());
            },
        }
        let ghost open = body@;
        push_mica_fields(&mut body, white_paper_cid, registration_status);
        let ghost m = body@.skip(open.len() as int);
        assert(body@ =~= open + m);
        push_bytes(&mut body, "}".as_bytes());
        proof {
            lemma_concat_associative(open, m, lit("}"));
        }
        body
    }
}

/// The events of the policy registry.
#[derive(Debug, PartialEq, Eq)]
pub enum PolicyRegistryEvent {
    /// `drwaTokenPolicy`: the enforcement flags of a token at a version.
    TokenPolicy {
        token_id: Vec<u8>,
        drwa_enabled: bool,
        global_pause: bool,
        strict_auditor_mode: bool,
        token_policy_version: u64,
    },
    /// `drwaWhitePaperCidSet`.
    WhitePaperCidSet { token_id: Vec<u8>, cid: Vec<u8> },
    /// `drwaRegistrationStatusSet`.
    RegistrationStatusSet { token_id: Vec<u8>, status: Vec<u8> },
}

/// `ev` is the `drwaTokenPolicy` event of `policy` for `token_id`.
pub open spec fn token_policy_event(ev: PolicyRegistryEvent, token_id: Seq<u8>, policy: DrwaTokenPolicy) -> bool {
    &&& ev matches PolicyRegistryEvent::TokenPolicy { token_id: t, drwa_enabled, global_pause, strict_auditor_mode, token_policy_version }
    &&& t@ == token_id
    &&& drwa_enabled == policy.drwa_enabled
    &&& global_pause == policy.global_pause
    &&& strict_auditor_mode == policy.strict_auditor_mode
    &&& token_policy_version == policy.token_policy_version
}

/// The endpoints of the policy registry.
pub trait DrwaPolicyRegistry: Sized {
    spec fn valid(&self) -> bool;

    fn init(env: &BlockchainEnv, governance: Vec<u8>) -> (r: Result<Self, &'static str>)
        ensures
            r matches Ok(s) ==> s.valid();

    fn set_token_policy(
        &mut self,
        env: &BlockchainEnv,
        token_id: Vec<u8>,
        drwa_enabled: bool,
        global_pause: bool,
        strict_auditor_mode: bool,
        metadata_protection_enabled: bool,
        allowed_investor_classes: Vec<Vec<u8>>,
        allowed_jurisdictions: Vec<Vec<u8>>,
        hook_status: i32,
    ) -> (r: Result<(PolicyRegistryEvent, DrwaSyncEnvelope), &'static str>)
        requires old(self).valid(), ensures final(self).valid();

    fn deactivate_token_policy(&mut self, env: &BlockchainEnv, token_id: Vec<u8>, hook_status: i32) -> (r: Result<
        (PolicyRegistryEvent, DrwaSyncEnvelope),
        &'static str,
    >)
        requires old(self).valid(), ensures final(self).valid();

    fn set_white_paper_cid(&mut self, env: &BlockchainEnv, token_id: Vec<u8>, cid: Vec<u8>, hook_status: i32) -> (r: Result<
        (PolicyRegistryEvent, DrwaSyncEnvelope),
        &'static str,
    >)
        requires old(self).valid(), ensures final(self).valid();

    fn set_registration_status(&mut self, env: &BlockchainEnv, token_id: Vec<u8>, status: Vec<u8>, hook_status: i32) -> (r: Result<
        (PolicyRegistryEvent, DrwaSyncEnvelope),
        &'static str,
    >)
        requires old(self).valid(), ensures final(self).valid();

    fn upgrade(&mut self)
        requires old(self).valid(), ensures final(self).valid();
}

impl DrwaPolicyRegistry for PolicyRegistryState {
    open spec fn valid(&self) -> bool {
        self.wf()
    }

    fn init(env: &BlockchainEnv, governance: Vec<u8>) -> (r: Result<Self, &'static str>)
        ensures
            governance@ == zero_address() ==> r == Err::<Self, &'static str>("governance must not be zero"),
            governance@ != zero_address() ==> (r matches Ok(s) && {
                &&& s.wf()
                &&& s.gov.governance == Some(governance)
                &&& s.gov.pending_governance is None
                &&& s.token_policies@ == Map::<Seq<u8>, DrwaTokenPolicy>::empty()
                &&& s.token_policy_versions@ == Map::<Seq<u8>, u64>::empty()
                &&& s.white_paper_cids@ == Map::<Seq<u8>, Vec<u8>>::empty()
                &&& s.registration_statuses@ == Map::<Seq<u8>, Vec<u8>>::empty()
                &&& s.storage_version == 1
            }),
    {
        if is_zero_address(&governance) {
            return Err("governance must not be zero");
        }
        Ok(PolicyRegistryState {
            gov: DrwaGovernanceState::with_governance(governance),
            token_policies: Table::new(),
            token_policy_versions: Table::new(),
            white_paper_cids: Table::new(),
            registration_statuses: Table::new(),
            storage_version: 1,
        })
    }

    /// Creates or replaces a token policy at the token's next version and
    /// returns the envelope that syncs its JSON body.
    fn set_token_policy(
        &mut self,
        env: &BlockchainEnv,
        token_id: Vec<u8>,
        drwa_enabled: bool,
        global_pause: bool,
        strict_auditor_mode: bool,
        metadata_protection_enabled: bool,
        allowed_investor_classes: Vec<Vec<u8>>,
        allowed_jurisdictions: Vec<Vec<u8>>,
        hook_status: i32,
    ) -> (r: Result<(PolicyRegistryEvent, DrwaSyncEnvelope), &'static str>)
        ensures
            match old(self).set_token_policy_error(env, token_id@, views(allowed_investor_classes@), views(allowed_jurisdictions@)) {
                Some(e) => r == Err::<(PolicyRegistryEvent, DrwaSyncEnvelope), &'static str>(e) && *final(self) == *old(self),
                None => if hook_status != 0 {
                    r == Err::<(PolicyRegistryEvent, DrwaSyncEnvelope), &'static str>("native mirror sync failed") && *final(self) == *old(self)
                } else {
                    let v = (old(self).version(token_id@) + 1) as u64;
                    let p = DrwaTokenPolicy {
                        drwa_enabled,
                        global_pause,
                        strict_auditor_mode,
                        metadata_protection_enabled,
                        token_policy_version: v,
                        allowed_investor_classes,
                        allowed_jurisdictions,
                    };
                    &&& r matches Ok((ev, e)) && token_policy_event(ev, token_id@, p)
                        && policy_envelope(e, token_id@, v, policy_json(p))
                    &&& final(self).token_policies@ == old(self).token_policies@.insert(token_id@, p)
                    &&& final(self).token_policy_versions@ == old(self).token_policy_versions@.insert(token_id@, v)
                    &&& *final(self) == (PolicyRegistryState {
                        token_policies: final(self).token_policies,
                        token_policy_versions: final(self).token_policy_versions,
                        ..*old(self)
                    })
                },
            },
    {
        if let Err(e) = self.check_token(env, &token_id) {
            return Err(e);
        }
        if allowed_investor_classes.len() > MAX_INVESTOR_CLASSES {
            return Err("too many investor classes: max 100");
        }
        if allowed_jurisdictions.len() > MAX_JURISDICTIONS {
            return Err("too many jurisdictions: max 200");
        }
        let version = self.version_of(&token_id);
        if version == u64::MAX {
            return Err("token policy version overflow");
        }
        let next_version = version + 1;
        let policy = DrwaTokenPolicy {
            drwa_enabled,
            global_pause,
            strict_auditor_mode,
            metadata_protection_enabled,
            token_policy_version: next_version,
            allowed_investor_classes,
            allowed_jurisdictions,
        };
        let body = match serialize_policy_json(&policy) {
            Ok(b) => b,
            Err(e) => {
                return Err(e);
            },
        };
        let event = PolicyRegistryEvent::TokenPolicy {
            token_id: copy_bytes(&token_id),
            drwa_enabled,
            global_pause,
            strict_auditor_mode,
            token_policy_version: next_version,
        };
        if let Err(e) = check_sync_hook_status(hook_status) {
            return Err(e);
        }
        self.token_policies.insert(copy_bytes(&token_id), policy);
        self.token_policy_versions.insert(copy_bytes(&token_id), next_version);
        Ok((event, policy_envelope_of(token_id, next_version, body)))
    }

    /// Turns a stored policy off at the token's next version and returns the
    /// envelope that syncs its JSON body.
    fn deactivate_token_policy(&mut self, env: &BlockchainEnv, token_id: Vec<u8>, hook_status: i32) -> (r: Result<
        (PolicyRegistryEvent, DrwaSyncEnvelope),
        &'static str,
    >)
        ensures
            match old(self).deactivate_error(env, token_id@) {
                Some(e) => r == Err::<(PolicyRegistryEvent, DrwaSyncEnvelope), &'static str>(e) && *final(self) == *old(self),
                None => if hook_status != 0 {
                    r == Err::<(PolicyRegistryEvent, DrwaSyncEnvelope), &'static str>("native mirror sync failed") && *final(self) == *old(self)
                } else {
                    let v = (old(self).version(token_id@) + 1) as u64;
                    let p = DrwaTokenPolicy {
                        drwa_enabled: false,
                        token_policy_version: v,
                        ..old(self).token_policies@[token_id@]
                    };
                    &&& r matches Ok((ev, e)) && token_policy_event(ev, token_id@, p)
                        && policy_envelope(e, token_id@, v, policy_json(p))
                    &&& final(self).token_policies@ == old(self).token_policies@.insert(token_id@, p)
                    &&& final(self).token_policy_versions@ == old(self).token_policy_versions@.insert(token_id@, v)
                    &&& *final(self) == (PolicyRegistryState {
                        token_policies: final(self).token_policies,
                        token_policy_versions: final(self).token_policy_versions,
                        ..*old(self)
                    })
                },
            },
    {
        if let Err(e) = self.check_token(env, &token_id) {
            return Err(e);
        }
        if !self.token_policies.contains_key(&token_id) {
            return Err("token policy does not exist");
        }
        let version = self.version_of(&token_id);
        if version == u64::MAX {
            return Err("token policy version overflow");
        }
        let next_version = version + 1;
        if let Err(e) = check_sync_hook_status(hook_status) {
            return Err(e);
        }
        let ghost k = token_id@;
        let ghost prev = self.token_policies@[k];
        let taken = self.token_policies.take(&token_id);
        let policy = match taken {
            Some(p) => DrwaTokenPolicy { drwa_enabled: false, token_policy_version: next_version, ..p },
            None => {
                return Err("token policy does not exist");
            },
        };
        assert(views(policy.allowed_investor_classes@) == views(prev.allowed_investor_classes@));
        let body = match serialize_policy_json(&policy) {
            Ok(b) => b,
            Err(e) => {
                return Err(e);
            },
        };
        let event = PolicyRegistryEvent::TokenPolicy {
            token_id: copy_bytes(&token_id),
            drwa_enabled: false,
            global_pause: policy.global_pause,
            strict_auditor_mode: policy.strict_auditor_mode,
            token_policy_version: next_version,
        };
        self.token_policies.insert(copy_bytes(&token_id), policy);
        assert(self.token_policies@ =~= old(self).token_policies@.insert(
            k,
            DrwaTokenPolicy { drwa_enabled: false, token_policy_version: next_version, ..prev },
        ));
        self.token_policy_versions.insert(copy_bytes(&token_id), next_version);
        Ok((event, policy_envelope_of(token_id, next_version, body)))
    }

    /// Records the MiCA white-paper CID of a token and returns the envelope
    /// that syncs the token's policy with the CID, at its next version.
    fn set_white_paper_cid(&mut self, env: &BlockchainEnv, token_id: Vec<u8>, cid: Vec<u8>, hook_status: i32) -> (r: Result<
        (PolicyRegistryEvent, DrwaSyncEnvelope),
        &'static str,
    >)
        ensures
            match old(self).white_paper_cid_error(env, token_id@, cid@) {
                Some(e) => r == Err::<(PolicyRegistryEvent, DrwaSyncEnvelope), &'static str>(e) && *final(self) == *old(self),
                None => if hook_status != 0 {
                    r == Err::<(PolicyRegistryEvent, DrwaSyncEnvelope), &'static str>("native mirror sync failed") && *final(self) == *old(self)
                } else {
                    let v = (old(self).version(token_id@) + 1) as u64;
                    &&& r matches Ok((ev, e))
                    &&& ev matches PolicyRegistryEvent::WhitePaperCidSet { token_id: t, cid: c } && t@ == token_id@ && c@ == cid@
                    &&& policy_envelope(
                        e,
                        token_id@,
                        v,
                        old(self).policy_open(token_id@) + mica_fields(Some(cid@), None) + lit("}"),
                    )
                    &&& final(self).white_paper_cids@ == old(self).white_paper_cids@.insert(token_id@, cid)
                    &&& final(self).token_policy_versions@ == old(self).token_policy_versions@.insert(token_id@, v)
                    &&& *final(self) == (PolicyRegistryState {
                        white_paper_cids: final(self).white_paper_cids,
                        token_policy_versions: final(self).token_policy_versions,
                        ..*old(self)
                    })
                },
            },
    {
        if let Err(e) = self.check_token(env, &token_id) {
            return Err(e);
        }
        if let Err(e) = check_cid(&cid) {
            return Err(e);
        }
        let version = self.version_of(&token_id);
        if version == u64::MAX {
            return Err("token policy version overflow");
        }
        let next_version = version + 1;
        let body = self.serialize_full_policy_with_mica_json(&token_id, Some(&cid), None);
        let event = PolicyRegistryEvent::WhitePaperCidSet { token_id: copy_bytes(&token_id), cid: copy_bytes(&cid) };
        if let Err(e) = check_sync_hook_status(hook_status) {
            return Err(e);
        }
        self.white_paper_cids.insert(copy_bytes(&token_id), cid);
        self.token_policy_versions.insert(copy_bytes(&token_id), next_version);
        Ok((event, policy_envelope_of(token_id, next_version, body)))
    }

    /// Records the MiCA registration status of a token and returns the
    /// envelope that syncs the token's policy with the status, at its next
    /// version.
    fn set_registration_status(&mut self, env: &BlockchainEnv, token_id: Vec<u8>, status: Vec<u8>, hook_status: i32) -> (r: Result<
        (PolicyRegistryEvent, DrwaSyncEnvelope),
        &'static str,
    >)
        ensures
            match old(self).registration_status_error(env, token_id@, status@) {
                Some(e) => r == Err::<(PolicyRegistryEvent, DrwaSyncEnvelope), &'static str>(e) && *final(self) == *old(self),
                None => if hook_status != 0 {
                    r == Err::<(PolicyRegistryEvent, DrwaSyncEnvelope), &'static str>("native mirror sync failed") && *final(self) == *old(self)
                } else {
                    let v = (old(self).version(token_id@) + 1) as u64;
                    &&& r matches Ok((ev, e))
                    &&& ev matches PolicyRegistryEvent::RegistrationStatusSet { token_id: t, status: st } && t@ == token_id@
                        && st@ == status@
                    &&& policy_envelope(
                        e,
                        token_id@,
                        v,
                        old(self).policy_open(token_id@) + mica_fields(None, Some(status@)) + lit("}"),
                    )
                    &&& final(self).registration_statuses@ == old(self).registration_statuses@.insert(token_id@, status)
                    &&& final(self).token_policy_versions@ == old(self).token_policy_versions@.insert(token_id@, v)
                    &&& *final(self) == (PolicyRegistryState {
                        registration_statuses: final(self).registration_statuses,
                        token_policy_versions: final(self).token_policy_versions,
                        ..*old(self)
                    })
                },
            },
    {
        if let Err(e) = self.check_token(env, &token_id) {
            return Err(e);
        }
        if !is_registration_status(&status) {
            return Err("invalid registration status: must be draft, submitted, approved, rejected, or withdrawn");
        }
        let version = self.version_of(&token_id);
        if version == u64::MAX {
            return Err("token policy version overflow");
        }
        let next_version = version + 1;
        let body = self.serialize_full_policy_with_mica_json(&token_id, None, Some(&status));
        let event = PolicyRegistryEvent::RegistrationStatusSet { token_id: copy_bytes(&token_id), status: copy_bytes(&status) };
        if let Err(e) = check_sync_hook_status(hook_status) {
            return Err(e);
        }
        self.registration_statuses.insert(copy_bytes(&token_id), status);
        self.token_policy_versions.insert(copy_bytes(&token_id), next_version);
        Ok((event, policy_envelope_of(token_id, next_version, body)))
    }

    /// Writes storage version 1 when none is recorded yet.
    fn upgrade(&mut self)
        ensures
            *final(self) == (PolicyRegistryState {
                storage_version: if old(self).storage_version < 1 { 1 } else { old(self).storage_version },
                ..*old(self)
            }),
    {
        if self.storage_version < 1 {
            self.storage_version = 1;
        }
    }
}

impl PolicyRegistryState {
    pub fn get_token_policy(&self, token_id: &[u8]) -> (r: Option<&DrwaTokenPolicy>)
        requires
            self.wf(),
        ensures
            match r {
                Some(p) => self.token_policies@.contains_key(token_id@) && *p == self.token_policies@[token_id@],
                None => !self.token_policies@.contains_key(token_id@),
            },
    {
        self.token_policies.get(token_id)
    }

    /// The policy version of a token (`0` before its first change).
    pub fn get_token_policy_version(&self, token_id: &[u8]) -> (r: u64)
        requires
            self.wf(),
        ensures
            r == self.version(token_id@),
    {
        self.version_of(token_id)
    }

    /// The white-paper CID of a token, empty when none is set.
    pub fn get_white_paper_cid(&self, token_id: &[u8]) -> (r: Vec<u8>)
        requires
            self.wf(),
        ensures
            self.white_paper_cids@.contains_key(token_id@) ==> r@ == self.white_paper_cids@[token_id@]@,
            !self.white_paper_cids@.contains_key(token_id@) ==> r@.len() == 0,
    {
        match self.white_paper_cids.get(token_id) {
            Some(c) => copy_bytes(c),
            None => Vec::new(),
        }
    }

    /// The registration status of a token, empty when none is set.
    pub fn get_registration_status(&self, token_id: &[u8]) -> (r: Vec<u8>)
        requires
            self.wf(),
        ensures
            self.registration_statuses@.contains_key(token_id@) ==> r@ == self.registration_statuses@[token_id@]@,
            !self.registration_statuses@.contains_key(token_id@) ==> r@.len() == 0,
    {
        match self.registration_statuses.get(token_id) {
            Some(s) => copy_bytes(s),
            None => Vec::new(),
        }
    }

    pub fn get_storage_version(&self) -> (r: u32)
        ensures
            r == self.storage_version,
    {
        self.storage_version
    }
}

} // verus!
