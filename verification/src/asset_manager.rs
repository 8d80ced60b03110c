//! DRWA asset manager: regulated asset records and per-holder compliance
//! mirrors, each mutation versioned and packed into a sync envelope for the
//! native DRWA mirror.
//!
//! Every endpoint that syncs the mirror takes `hook_status`, the status the
//! native mirror hook returns for the call's hook payload (the returned
//! envelope's hash followed by its canonical payload). A non-zero status
//! refuses the call with "native mirror sync failed" and leaves the storage
//! as it was, so that the contract and the mirror never diverge.
use vstd::prelude::*;

use crate::policy_registry::is_alnum;
use crate::bytes::{bytes_eq, contains_byte, contains_bytes, copy_bytes, occurs_in, is_zero_address, key2, len_prefixed, lit, make_key2, new_zero_address,
    push_bytes, push_u64_be, u64_be, zero_address};
use crate::drwa_common::{
    aml_status_allowed, check_sync_hook_status, envelope_hash, kyc_status_allowed, make_sync_envelope, push_len_prefixed, require_valid_aml_status,
    require_valid_kyc_status, require_valid_token_id, token_id_error, DrwaCallerDomain, DrwaGovernanceModule,
    DrwaGovernanceState, DrwaHolderMirror, DrwaSyncEnvelope, DrwaSyncOperation, DrwaSyncOperationType,
};
use crate::env::BlockchainEnv;
use crate::table::Table;

verus! {

/// Stores the regulated asset metadata associated with a token identifier.
pub struct AssetRecord {
    pub token_id: Vec<u8>,
    pub carrier_type: Vec<u8>,
    pub asset_class: Vec<u8>,
    pub policy_id: Vec<u8>,
    pub regulated: bool,
    /// MiCA orderly wind-down flag: once set, transfers are restricted to
    /// redemption by the issuer.
    pub wind_down_initiated: bool,
    /// Block round at which wind-down was initiated; zero if not initiated.
    pub wind_down_round: u64,
}

/// Event payload emitted when holder compliance data is updated.
pub struct HolderComplianceEventPayload {
    pub holder_policy_version: u64,
    pub kyc_status: Vec<u8>,
    pub aml_status: Vec<u8>,
    pub investor_class: Vec<u8>,
    pub jurisdiction_code: Vec<u8>,
    pub expiry_round: u64,
    pub transfer_locked: bool,
    pub receive_locked: bool,
    pub auditor_authorized: bool,
}

/// The storage of the asset manager.
pub struct AssetManagerState {
    pub gov: DrwaGovernanceState,
    /// Asset records by token id.
    pub assets: Table<AssetRecord>,
    /// Holder mirrors by `key2(token_id, holder)`.
    pub holder_mirrors: Table<DrwaHolderMirror>,
    /// Holder policy versions by `key2(token_id, holder)`; absent reads as `0`.
    pub holder_policy_versions: Table<u64>,
    /// Asset record versions by token id; absent reads as `0`.
    pub asset_record_versions: Table<u64>,
    pub storage_version: u32,
}

/// A byte allowed in an investor class or a jurisdiction code.
pub open spec fn is_code_byte(b: u8) -> bool {
    (48u8 <= b <= 57u8) || (65u8 <= b <= 90u8) || (97u8 <= b <= 122u8) || b == 46u8 || b == 95u8 || b == 45u8
}

pub open spec fn code_valid(s: Seq<u8>) -> bool {
    forall|i: int| 0 <= i < s.len() ==> #[trigger] is_code_byte(s[i])
}

/// An investor class or jurisdiction code may hold ASCII letters, digits,
/// `.`, `_` and `-`, and nothing else; in particular the empty code is
/// accepted.
pub proof fn lemma_code_alphabet(s: Seq<u8>)
    ensures
        code_valid(s) <==> forall|i: int| 0 <= i < s.len() ==> {
            let b = #[trigger] s[i];
            ||| is_alnum(b)
            ||| b == '.' as u8
            ||| b == '_' as u8
            ||| b == '-' as u8
        },
        code_valid(Seq::<u8>::empty()),
{
    assert forall|i: int| 0 <= i < s.len() implies (is_code_byte(#[trigger] s[i]) <==> (is_alnum(s[i]) || s[i] == '.' as u8
        || s[i] == '_' as u8 || s[i] == '-' as u8)) by {
    }
}

/// Whether every byte is alphanumeric, `.`, `_` or `-`.
pub fn is_valid_code(s: &[u8]) -> (r: bool)
    ensures
        r == code_valid(s@),
{
    let mut i: usize = 0;
    while i < s.len()
        invariant
            i <= s@.len(),
            forall|j: int| 0 <= j < i ==> #[trigger] is_code_byte(s@[j]),
        decreases s@.len() - i,
    {
        let b = s[i];
        if !((48u8 <= b && b <= 57u8) || (65u8 <= b && b <= 90u8) || (97u8 <= b && b <= 122u8) || b == 46u8 || b == 95u8
            || b == 45u8) {
            assert(!is_code_byte(s@[i as int]));
            return false;
        }
        i = i + 1;
    }
    true
}

/// The decimal digits of `n`, without leading zeros (`0` for zero).
pub open spec fn decimal_digits(n: u64) -> Seq<u8>
    decreases n,
{
    if n < 10 {
        seq![(48 + n) as u8]
    } else {
        decimal_digits(n / 10) + seq![(48 + n % 10) as u8]
    }
}

/// Appends the decimal digits of `n`.
pub fn push_decimal(out: &mut Vec<u8>, n: u64)
    ensures
        final(out)@ == old(out)@ + decimal_digits(n),
    decreases n,
{
    if n >= 10 {
        push_decimal(out, n / 10);
    }
    out.push((48 + n % 10) as u8);
    assert(final(out)@ =~= old(out)@ + decimal_digits(n));
}

/// The body of an asset-record operation: the delimiter-format tag `0x00`,
/// then `token_id:policy_id`.
pub open spec fn asset_body(token_id: Seq<u8>, policy_id: Seq<u8>) -> Seq<u8> {
    seq![0u8] + token_id + lit(":") + policy_id
}

/// The body of a wind-down operation: the JSON-format tag `0x01`, then the
/// JSON object with the wind-down round.
pub open spec fn wind_down_body(round: u64) -> Seq<u8> {
    seq![1u8] + lit("{\"wind_down_initiated\":true,\"wind_down_round\":") + decimal_digits(round) + lit(
        ",\"global_transfer_lock\":true}",
    )
}

/// How deployment tooling reads a refused `registerAsset`: a refusal whose
/// message says the asset is already registered leaves the asset as wanted,
/// so registration can be repeated; any other refusal is a failure.
pub fn is_already_registered_refusal(message: &[u8]) -> (r: bool)
    ensures
        r == occurs_in(message@, lit("asset already registered")),
{
    contains_bytes(message, "asset already registered".as_bytes())
}

/// The binary form of a holder mirror, in the field order the native mirror
/// reads.
pub open spec fn holder_body(m: DrwaHolderMirror) -> Seq<u8> {
    u64_be(m.holder_policy_version) + len_prefixed(m.kyc_status@) + len_prefixed(m.aml_status@) + len_prefixed(
        m.investor_class@,
    ) + len_prefixed(m.jurisdiction_code@) + u64_be(m.expiry_round) + seq![if m.transfer_locked { 1u8 } else { 0u8 }]
        + seq![if m.receive_locked { 1u8 } else { 0u8 }] + seq![if m.auditor_authorized { 1u8 } else { 0u8 }]
}

/// Serializes holder compliance data in the binary field order consumed by
/// the native mirror.
pub fn serialize_holder(holder: &DrwaHolderMirror) -> (r: Vec<u8>)
    ensures
        r@ == holder_body(*holder),
{
    let mut result: Vec<u8> = Vec::new();
    push_u64_be(&mut result, holder.holder_policy_version);
    push_len_prefixed(&mut result, &holder.kyc_status);
    push_len_prefixed(&mut result, &holder.aml_status);
    push_len_prefixed(&mut result, &holder.investor_class);
    push_len_prefixed(&mut result, &holder.jurisdiction_code);
    push_u64_be(&mut result, holder.expiry_round);
    result.push(if holder.transfer_locked { 1u8 } else { 0u8 });
    result.push(if holder.receive_locked { 1u8 } else { 0u8 });
    result.push(if holder.auditor_authorized { 1u8 } else { 0u8 });
    assert(result@ =~= holder_body(*holder));
    result
}

/// `e` is the envelope of the asset manager carrying the single operation
/// described.
pub open spec fn single_op_envelope(
    e: DrwaSyncEnvelope,
    op_type: DrwaSyncOperationType,
    token_id: Seq<u8>,
    holder: Seq<u8>,
    version: u64,
    body: Seq<u8>,
) -> bool {
    &&& e.caller_domain == DrwaCallerDomain::AssetManager
    &&& e.operations@.len() == 1
    &&& e.operations@[0].operation_type == op_type
    &&& e.operations@[0].token_id@ == token_id
    &&& e.operations@[0].holder@ == holder
    &&& e.operations@[0].version == version
    &&& e.operations@[0].body@ == body
    &&& e.payload_hash@ == envelope_hash(e.caller_domain, e.operations@)
}

/// Packs one operation into an asset-manager envelope.
fn envelope_of(op_type: DrwaSyncOperationType, token_id: Vec<u8>, holder: Vec<u8>, version: u64, body: Vec<u8>) -> (e: DrwaSyncEnvelope)
    ensures
        single_op_envelope(e, op_type, token_id@, holder@, version, body@),
{
    let mut operations: Vec<DrwaSyncOperation> = Vec::new();
    operations.push(DrwaSyncOperation { operation_type: op_type, token_id, holder, version, body });
    make_sync_envelope(DrwaCallerDomain::AssetManager, operations)
}

impl AssetManagerState {
    pub open spec fn wf(&self) -> bool {
        &&& self.assets.wf()
        &&& self.holder_mirrors.wf()
        &&& self.holder_policy_versions.wf()
        &&& self.asset_record_versions.wf()
    }

    pub open spec fn auth_error(&self, env: &BlockchainEnv) -> Option<&'static str> {
        if self.gov.is_governance_or_owner(env.caller@, env.owner@) { None } else { Some("caller not authorized") }
    }

    pub open spec fn asset_version(&self, token_id: Seq<u8>) -> u64 {
        if self.asset_record_versions@.contains_key(token_id) { self.asset_record_versions@[token_id] } else { 0 }
    }

    pub open spec fn holder_version(&self, token_id: Seq<u8>, holder: Seq<u8>) -> u64 {
        let k = key2(token_id, holder);
        if self.holder_policy_versions@.contains_key(k) { self.holder_policy_versions@[k] } else { 0 }
    }

    /// The rules shared by registering and updating an asset.
    pub open spec fn asset_fields_error(&self, env: &BlockchainEnv, token_id: Seq<u8>, policy_id: Seq<u8>) -> Option<&'static str> {
        if self.auth_error(env) is Some {
            self.auth_error(env)
        } else if token_id_error(token_id) is Some {
            token_id_error(token_id)
        } else if policy_id.contains(58u8) {
            Some("policy_id must not contain ':'")
        } else {
            None
        }
    }

    pub open spec fn register_asset_error(&self, env: &BlockchainEnv, token_id: Seq<u8>, policy_id: Seq<u8>) -> Option<&'static str> {
        if self.asset_fields_error(env, token_id, policy_id) is Some {
            self.asset_fields_error(env, token_id, policy_id)
        } else if self.assets@.contains_key(token_id) {
            Some("asset already registered - use an upgrade endpoint to modify")
        } else if self.asset_version(token_id) == u64::MAX {
            Some("asset record version overflow")
        } else {
            None
        }
    }

    pub open spec fn update_asset_error(&self, env: &BlockchainEnv, token_id: Seq<u8>, policy_id: Seq<u8>) -> Option<&'static str> {
        if self.asset_fields_error(env, token_id, policy_id) is Some {
            self.asset_fields_error(env, token_id, policy_id)
        } else if !self.assets@.contains_key(token_id) {
            Some("asset not registered: use registerAsset first")
        } else if self.asset_version(token_id) == u64::MAX {
            Some("asset record version overflow")
        } else {
            None
        }
    }

    pub open spec fn wind_down_error(&self, env: &BlockchainEnv, token_id: Seq<u8>) -> Option<&'static str> {
        if self.auth_error(env) is Some {
            self.auth_error(env)
        } else if token_id_error(token_id) is Some {
            token_id_error(token_id)
        } else if !self.assets@.contains_key(token_id) {
            Some("ASSET_NOT_REGISTERED")
        } else if self.assets@[token_id].wind_down_initiated {
            Some("WIND_DOWN_ALREADY_INITIATED")
        } else if self.asset_version(token_id) == u64::MAX {
            Some("asset record version overflow")
        } else {
            None
        }
    }

    pub open spec fn holder_compliance_error(
        &self,
        env: &BlockchainEnv,
        token_id: Seq<u8>,
        holder: Seq<u8>,
        kyc_status: Seq<u8>,
        aml_status: Seq<u8>,
        investor_class: Seq<u8>,
        jurisdiction_code: Seq<u8>,
        expiry_round: u64,
    ) -> Option<&'static str> {
        if self.auth_error(env) is Some {
            self.auth_error(env)
        } else if holder == zero_address() {
            Some("ZERO_ADDRESS: holder must not be zero")
        } else if token_id_error(token_id) is Some {
            token_id_error(token_id)
        } else if !self.assets@.contains_key(token_id) {
            Some("asset not registered: use registerAsset first")
        } else if !kyc_status_allowed(kyc_status) {
            Some("invalid kyc_status: must be one of approved, pending, rejected, expired, not_started, deactivated")
        } else if !aml_status_allowed(aml_status) {
            Some("invalid aml_status: must be one of clear, pending, flagged, review, blocked, not_started, deactivated")
        } else if !code_valid(investor_class) {
            Some("investor_class contains invalid characters")
        } else if !code_valid(jurisdiction_code) {
            Some("jurisdiction_code contains invalid characters")
        } else if !(expiry_round == 0 || expiry_round > env.block_round) {
            Some("expiry_round must be in the future or 0 for permanent")
        } else if self.holder_version(token_id, holder) == u64::MAX {
            Some("holder policy version overflow")
        } else {
            None
        }
    }
}

/// The asset events of the asset manager (holder updates carry their own
/// payload).
#[derive(Debug, PartialEq, Eq)]
pub enum AssetManagerEvent {
    /// `drwaAssetRegistered`.
    AssetRegistered { token_id: Vec<u8>, policy_id: Vec<u8>, regulated: bool },
    /// `drwaAssetUpdated`.
    AssetUpdated { token_id: Vec<u8>, policy_id: Vec<u8> },
    /// `drwaWindDownInitiated`.
    WindDownInitiated { token_id: Vec<u8> },
}

/// The endpoints of the asset manager.
pub trait DrwaAssetManager: Sized {
    spec fn valid(&self) -> bool;

    fn init(env: &BlockchainEnv, governance: Vec<u8>) -> (r: Result<Self, &'static str>)
        ensures
            r matches Ok(s) ==> s.valid();

    fn register_asset(
        &mut self,
        env: &BlockchainEnv,
        token_id: Vec<u8>,
        carrier_type: Vec<u8>,
        asset_class: Vec<u8>,
        policy_id: Vec<u8>,
        hook_status: i32,
    ) -> (r: Result<(AssetManagerEvent, DrwaSyncEnvelope), &'static str>)
        requires old(self).valid(), ensures final(self).valid();

    fn sync_holder_compliance(
        &mut self,
        env: &BlockchainEnv,
        token_id: Vec<u8>,
        holder: Vec<u8>,
        kyc_status: Vec<u8>,
        aml_status: Vec<u8>,
        investor_class: Vec<u8>,
        jurisdiction_code: Vec<u8>,
        expiry_round: u64,
        transfer_locked: bool,
        receive_locked: bool,
        auditor_authorized: bool,
        hook_status: i32,
    ) -> (r: Result<(HolderComplianceEventPayload, DrwaSyncEnvelope), &'static str>)
        requires old(self).valid(), ensures final(self).valid();

    fn update_asset(
        &mut self,
        env: &BlockchainEnv,
        token_id: Vec<u8>,
        carrier_type: Vec<u8>,
        asset_class: Vec<u8>,
        policy_id: Vec<u8>,
        hook_status: i32,
    ) -> (r: Result<(AssetManagerEvent, DrwaSyncEnvelope), &'static str>)
        requires old(self).valid(), ensures final(self).valid();

    fn initiate_wind_down(&mut self, env: &BlockchainEnv, token_id: Vec<u8>, hook_status: i32) -> (r: Result<(AssetManagerEvent, DrwaSyncEnvelope), &'static str>)
        requires old(self).valid(), ensures final(self).valid();

    fn upgrade(&mut self)
        requires old(self).valid(), ensures final(self).valid();
}

impl AssetManagerState {
    fn asset_version_of(&self, token_id: &[u8]) -> (v: u64)
        requires
            self.wf(),
        ensures
            v == self.asset_version(token_id@),
    {
        match self.asset_record_versions.get(token_id) {
            Some(v) => *v,
            None => 0,
        }
    }

    /// Checks governance, the token id and the policy id.
    fn check_asset_fields(&self, env: &BlockchainEnv, token_id: &[u8], policy_id: &[u8]) -> (r: Result<(), &'static str>)
        ensures
            match self.asset_fields_error(env, token_id@, policy_id@) {
                Some(e) => r == Err::<(), &'static str>(e),
                None => r is Ok,
            },
    {
        if let Err(e) = self.gov.require_governance_or_owner(env) {
            return Err(e);
        }
        if let Err(e) = require_valid_token_id(token_id) {
            return Err(e);
        }
        if contains_byte(policy_id, 58u8) {
            return Err("policy_id must not contain ':'");
        }
        Ok(())
    }

    /// The asset-record body `0x00 token_id ':' policy_id`.
    fn build_asset_body(token_id: &[u8], policy_id: &[u8]) -> (r: Vec<u8>)
        ensures
            r@ == asset_body(token_id@, policy_id@),
    {
        let mut body: Vec<u8> = Vec::new();
        body.push(0u8);
        push_bytes(&mut body, token_id);
        push_bytes(&mut body, ":".as_bytes());
        push_bytes(&mut body, policy_id);
        assert(body@ =~= asset_body(token_id@, policy_id@));
        body
    }
}

impl DrwaAssetManager for AssetManagerState {
    open spec fn valid(&self) -> bool {
        self.wf()
    }

    fn init(env: &BlockchainEnv, governance: Vec<u8>) -> (r: Result<Self, &'static str>)
        ensures
            governance@ == zero_address() ==> r == Err::<Self, &'static str>("governance must not be zero"),
            governance@ != zero_address() ==> (r matches Ok(s) && {
                &&& s.wf()
                &&& s.gov.governance == Some(governance)
                &&& s.gov.pending_governance is None
                &&& s.assets@ == Map::<Seq<u8>, AssetRecord>::empty()
                &&& s.holder_mirrors@ == Map::<Seq<u8>, DrwaHolderMirror>::empty()
                &&& s.holder_policy_versions@ == Map::<Seq<u8>, u64>::empty()
                &&& s.asset_record_versions@ == Map::<Seq<u8>, u64>::empty()
                &&& s.storage_version == 1
            }),
    {
        if is_zero_address(&governance) {
            return Err("governance must not be zero");
        }
        Ok(AssetManagerState {
            gov: DrwaGovernanceState::with_governance(governance),
            assets: Table::new(),
            holder_mirrors: Table::new(),
            holder_policy_versions: Table::new(),
            asset_record_versions: Table::new(),
            storage_version: 1,
        })
    }

    /// Registers a regulated asset (at its next record version) and returns
    /// the envelope that syncs `token_id:policy_id` to the native mirror.
    fn register_asset(
        &mut self,
        env: &BlockchainEnv,
        token_id: Vec<u8>,
        carrier_type: Vec<u8>,
        asset_class: Vec<u8>,
        policy_id: Vec<u8>,
        hook_status: i32,
    ) -> (r: Result<(AssetManagerEvent, DrwaSyncEnvelope), &'static str>)
        ensures
            match old(self).register_asset_error(env, token_id@, policy_id@) {
                Some(e) => r == Err::<(AssetManagerEvent, DrwaSyncEnvelope), &'static str>(e) && *final(self) == *old(self),
                None => if hook_status != 0 {
                    r == Err::<(AssetManagerEvent, DrwaSyncEnvelope), &'static str>("native mirror sync failed") && *final(self) == *old(self)
                } else {
                    let v = (old(self).asset_version(token_id@) + 1) as u64;
                    let a = final(self).assets@[token_id@];
                    &&& r matches Ok((ev, e)) && single_op_envelope(e, DrwaSyncOperationType::AssetRecord, token_id@, zero_address(), v,
                        asset_body(token_id@, policy_id@))
                        && (ev matches AssetManagerEvent::AssetRegistered { token_id: t, policy_id: q, regulated } && t@ == token_id@
                        && q@ == policy_id@ && regulated)
                    &&& final(self).assets@ == old(self).assets@.insert(token_id@, a)
                    &&& a.token_id@ == token_id@ && a.carrier_type == carrier_type && a.asset_class == asset_class
                        && a.policy_id@ == policy_id@ && a.regulated && !a.wind_down_initiated && a.wind_down_round == 0
                    &&& final(self).asset_record_versions@ == old(self).asset_record_versions@.insert(token_id@, v)
                    &&& *final(self) == (AssetManagerState {
                        assets: final(self).assets,
                        asset_record_versions: final(self).asset_record_versions,
                        ..*old(self)
                    })
                },
            },
    {
        if let Err(e) = self.check_asset_fields(env, &token_id, &policy_id) {
            return Err(e);
        }
        if self.assets.contains_key(&token_id) {
            return Err("asset already registered - use an upgrade endpoint to modify");
        }
        let version = self.asset_version_of(&token_id);
        if version == u64::MAX {
            return Err("asset record version overflow");
        }
        let next_version = version + 1;
        let body = AssetManagerState::build_asset_body(&token_id, &policy_id);
        let event = AssetManagerEvent::AssetRegistered { token_id: copy_bytes(&token_id), policy_id: copy_bytes(&policy_id), regulated: true };
        let record = AssetRecord {
            token_id: copy_bytes(&token_id),
            carrier_type,
            asset_class,
            policy_id,
            regulated: true,
            wind_down_initiated: false,
            wind_down_round: 0,
        };
        if let Err(e) = check_sync_hook_status(hook_status) {
            return Err(e);
        }
        self.assets.insert(copy_bytes(&token_id), record);
        self.asset_record_versions.insert(copy_bytes(&token_id), next_version);
        Ok((event, envelope_of(DrwaSyncOperationType::AssetRecord, token_id, new_zero_address(), next_version, body)))
    }

    /// Writes a holder's compliance mirror for a registered asset at the
    /// next holder policy version, and returns the event payload and the
    /// envelope that syncs the mirror.
    fn sync_holder_compliance(
        &mut self,
        env: &BlockchainEnv,
        token_id: Vec<u8>,
        holder: Vec<u8>,
        kyc_status: Vec<u8>,
        aml_status: Vec<u8>,
        investor_class: Vec<u8>,
        jurisdiction_code: Vec<u8>,
        expiry_round: u64,
        transfer_locked: bool,
        receive_locked: bool,
        auditor_authorized: bool,
        hook_status: i32,
    ) -> (r: Result<(HolderComplianceEventPayload, DrwaSyncEnvelope), &'static str>)
        ensures
            match old(self).holder_compliance_error(env, token_id@, holder@, kyc_status@, aml_status@, investor_class@,
                jurisdiction_code@, expiry_round) {
                Some(e) => r == Err::<(HolderComplianceEventPayload, DrwaSyncEnvelope), &'static str>(e) && *final(self) == *old(self),
                None => if hook_status != 0 {
                    r == Err::<(HolderComplianceEventPayload, DrwaSyncEnvelope), &'static str>("native mirror sync failed") && *final(self) == *old(self)
                } else {
                    let v = (old(self).holder_version(token_id@, holder@) + 1) as u64;
                    let k = key2(token_id@, holder@);
                    let m = final(self).holder_mirrors@[k];
                    &&& m.holder_policy_version == v
                    &&& m.kyc_status@ == kyc_status@ && m.aml_status@ == aml_status@
                    &&& m.investor_class@ == investor_class@ && m.jurisdiction_code@ == jurisdiction_code@
                    &&& m.expiry_round == expiry_round && m.transfer_locked == transfer_locked
                    &&& m.receive_locked == receive_locked && m.auditor_authorized == auditor_authorized
                    &&& final(self).holder_mirrors@ == old(self).holder_mirrors@.insert(k, m)
                    &&& final(self).holder_policy_versions@ == old(self).holder_policy_versions@.insert(k, v)
                    &&& r matches Ok((ev, e)) && {
                        &&& ev.holder_policy_version == v && ev.kyc_status@ == kyc_status@ && ev.aml_status@ == aml_status@
                        &&& ev.investor_class@ == investor_class@ && ev.jurisdiction_code@ == jurisdiction_code@
                        &&& ev.expiry_round == expiry_round && ev.transfer_locked == transfer_locked
                        &&& ev.receive_locked == receive_locked && ev.auditor_authorized == auditor_authorized
                        &&& single_op_envelope(e, DrwaSyncOperationType::HolderMirror, token_id@, holder@, v, holder_body(m))
                    }
                    &&& *final(self) == (AssetManagerState {
                        holder_mirrors: final(self).holder_mirrors,
                        holder_policy_versions: final(self).holder_policy_versions,
                        ..*old(self)
                    })
                },
            },
    {
        if let Err(e) = self.gov.require_governance_or_owner(env) {
            return Err(e);
        }
        if is_zero_address(&holder) {
            return Err("ZERO_ADDRESS: holder must not be zero");
        }
        if let Err(e) = require_valid_token_id(&token_id) {
            return Err(e);
        }
        if !self.assets.contains_key(&token_id) {
            return Err("asset not registered: use registerAsset first");
        }
        if let Err(e) = require_valid_kyc_status(&kyc_status) {
            return Err(e);
        }
        if let Err(e) = require_valid_aml_status(&aml_status) {
            return Err(e);
        }
        if !is_valid_code(&investor_class) {
            return Err("investor_class contains invalid characters");
        }
        if !is_valid_code(&jurisdiction_code) {
            return Err("jurisdiction_code contains invalid characters");
        }
        if !(expiry_round == 0 || expiry_round > env.block_round) {
            return Err("expiry_round must be in the future or 0 for permanent");
        }
        let key = make_key2(&token_id, &holder);
        let version: u64 = match self.holder_policy_versions.get(&key) {
            Some(v) => *v,
            None => 0,
        };
        if version == u64::MAX {
            return Err("holder policy version overflow");
        }
        let next_version = version + 1;
        let event = HolderComplianceEventPayload {
            holder_policy_version: next_version,
            kyc_status: copy_bytes(&kyc_status),
            aml_status: copy_bytes(&aml_status),
            investor_class: copy_bytes(&investor_class),
            jurisdiction_code: copy_bytes(&jurisdiction_code),
            expiry_round,
            transfer_locked,
            receive_locked,
            auditor_authorized,
        };
        let mirror = DrwaHolderMirror {
            holder_policy_version: next_version,
            kyc_status,
            aml_status,
            investor_class,
            jurisdiction_code,
            expiry_round,
            transfer_locked,
            receive_locked,
            auditor_authorized,
        };
        let body = serialize_holder(&mirror);
        if let Err(e) = check_sync_hook_status(hook_status) {
            return Err(e);
        }
        let ghost m = mirror;
        self.holder_mirrors.insert(copy_bytes(&key), mirror);
        self.holder_policy_versions.insert(key, next_version);
        Ok((event, envelope_of(DrwaSyncOperationType::HolderMirror, token_id, holder, next_version, body)))
    }

    /// Replaces an asset's carrier type, class and policy (keeping its
    /// regulation and wind-down state) and returns the sync envelope.
    fn update_asset(
        &mut self,
        env: &BlockchainEnv,
        token_id: Vec<u8>,
        carrier_type: Vec<u8>,
        asset_class: Vec<u8>,
        policy_id: Vec<u8>,
        hook_status: i32,
    ) -> (r: Result<(AssetManagerEvent, DrwaSyncEnvelope), &'static str>)
        ensures
            match old(self).update_asset_error(env, token_id@, policy_id@) {
                Some(e) => r == Err::<(AssetManagerEvent, DrwaSyncEnvelope), &'static str>(e) && *final(self) == *old(self),
                None => if hook_status != 0 {
                    r == Err::<(AssetManagerEvent, DrwaSyncEnvelope), &'static str>("native mirror sync failed") && *final(self) == *old(self)
                } else {
                    let v = (old(self).asset_version(token_id@) + 1) as u64;
                    let prev = old(self).assets@[token_id@];
                    &&& r matches Ok((ev, e)) && single_op_envelope(e, DrwaSyncOperationType::AssetRecord, token_id@, zero_address(), v,
                        asset_body(token_id@, policy_id@))
                        && (ev matches AssetManagerEvent::AssetUpdated { token_id: t, policy_id: q } && t@ == token_id@ && q@ == policy_id@)
                    &&& final(self).assets@ == old(self).assets@.insert(
                        token_id@,
                        AssetRecord { carrier_type, asset_class, policy_id: final(self).assets@[token_id@].policy_id, ..prev },
                    )
                    &&& final(self).assets@[token_id@].policy_id@ == policy_id@
                    &&& final(self).asset_record_versions@ == old(self).asset_record_versions@.insert(token_id@, v)
                    &&& *final(self) == (AssetManagerState {
                        assets: final(self).assets,
                        asset_record_versions: final(self).asset_record_versions,
                        ..*old(self)
                    })
                },
            },
    {
        if let Err(e) = self.check_asset_fields(env, &token_id, &policy_id) {
            return Err(e);
        }
        if !self.assets.contains_key(&token_id) {
            return Err("asset not registered: use registerAsset first");
        }
        let version = self.asset_version_of(&token_id);
        if version == u64::MAX {
            return Err("asset record version overflow");
        }
        let next_version = version + 1;
        let body = AssetManagerState::build_asset_body(&token_id, &policy_id);
        let event = AssetManagerEvent::AssetUpdated { token_id: copy_bytes(&token_id), policy_id: copy_bytes(&policy_id) };
        if let Err(e) = check_sync_hook_status(hook_status) {
            return Err(e);
        }
        let ghost k = token_id@;
        let taken = self.assets.take(&token_id);
        match taken {
            Some(record) => {
                let updated = AssetRecord { carrier_type, asset_class, policy_id, ..record };
                self.assets.insert(copy_bytes(&token_id), updated);
                assert(self.assets@ =~= old(self).assets@.insert(
                    k,
                    AssetRecord {
                        carrier_type: self.assets@[k].carrier_type,
                        asset_class: self.assets@[k].asset_class,
                        policy_id: self.assets@[k].policy_id,
                        ..old(self).assets@[k]
                    },
                ));
            },
            None => {},
        }
        self.asset_record_versions.insert(copy_bytes(&token_id), next_version);
        Ok((event, envelope_of(DrwaSyncOperationType::AssetRecord, token_id, new_zero_address(), next_version, body)))
    }

    /// Starts the orderly wind-down of an asset (MiCA Art. 47), once: the
    /// flag and the current round are recorded and synced as JSON.
    fn initiate_wind_down(&mut self, env: &BlockchainEnv, token_id: Vec<u8>, hook_status: i32) -> (r: Result<(AssetManagerEvent, DrwaSyncEnvelope), &'static str>)
        ensures
            match old(self).wind_down_error(env, token_id@) {
                Some(e) => r == Err::<(AssetManagerEvent, DrwaSyncEnvelope), &'static str>(e) && *final(self) == *old(self),
                None => if hook_status != 0 {
                    r == Err::<(AssetManagerEvent, DrwaSyncEnvelope), &'static str>("native mirror sync failed") && *final(self) == *old(self)
                } else {
                    let v = (old(self).asset_version(token_id@) + 1) as u64;
                    let prev = old(self).assets@[token_id@];
                    &&& r matches Ok((ev, e)) && single_op_envelope(e, DrwaSyncOperationType::AssetRecord, token_id@, zero_address(), v,
                        wind_down_body(env.block_round))
                        && (ev matches AssetManagerEvent::WindDownInitiated { token_id: t } && t@ == token_id@)
                    &&& final(self).assets@ == old(self).assets@.insert(
                        token_id@,
                        AssetRecord { wind_down_initiated: true, wind_down_round: env.block_round, ..prev },
                    )
                    &&& final(self).asset_record_versions@ == old(self).asset_record_versions@.insert(token_id@, v)
                    &&& *final(self) == (AssetManagerState {
                        assets: final(self).assets,
                        asset_record_versions: final(self).asset_record_versions,
                        ..*old(self)
                    })
                },
            },
    {
        if let Err(e) = self.gov.require_governance_or_owner(env) {
            return Err(e);
        }
        if let Err(e) = require_valid_token_id(&token_id) {
            return Err(e);
        }
        let initiated = match self.assets.get(&token_id) {
            None => {
                return Err("ASSET_NOT_REGISTERED");
            },
            Some(a) => a.wind_down_initiated,
        };
        if initiated {
            return Err("WIND_DOWN_ALREADY_INITIATED");
        }
        let version = self.asset_version_of(&token_id);
        if version == u64::MAX {
            return Err("asset record version overflow");
        }
        let next_version = version + 1;
        if let Err(e) = check_sync_hook_status(hook_status) {
            return Err(e);
        }
        let ghost k = token_id@;
        let taken = self.assets.take(&token_id);
        match taken {
            Some(record) => {
                self.assets.insert(
                    copy_bytes(&token_id),
                    AssetRecord { wind_down_initiated: true, wind_down_round: env.block_round, ..record },
                );
                assert(self.assets@ =~= old(self).assets@.insert(
                    k,
                    AssetRecord { wind_down_initiated: true, wind_down_round: env.block_round, ..old(self).assets@[k] },
                ));
            },
            None => {},
        }
        self.asset_record_versions.insert(copy_bytes(&token_id), next_version);
        let mut body: Vec<u8> = Vec::new();
        body.push(1u8);
        push_bytes(&mut body, "{\"wind_down_initiated\":true,\"wind_down_round\":".as_bytes());
        push_decimal(&mut body, env.block_round);
        push_bytes(&mut body, ",\"global_transfer_lock\":true}".as_bytes());
        assert(body@ =~= wind_down_body(env.block_round));
        let event = AssetManagerEvent::WindDownInitiated { token_id: copy_bytes(&token_id) };
        Ok((event, envelope_of(DrwaSyncOperationType::AssetRecord, token_id, new_zero_address(), next_version, body)))
    }

    /// Writes storage version 1 when none is recorded yet.
    fn upgrade(&mut self)
        ensures
            *final(self) == (AssetManagerState {
                storage_version: if old(self).storage_version < 1 { 1 } else { old(self).storage_version },
                ..*old(self)
            }),
    {
        if self.storage_version < 1 {
            self.storage_version = 1;
        }
    }
}

impl AssetManagerState {
    /// Whether the asset is registered and in wind-down.
    pub fn is_wind_down_initiated(&self, token_id: &[u8]) -> (r: bool)
        requires
            self.wf(),
        ensures
            r == (self.assets@.contains_key(token_id@) && self.assets@[token_id@].wind_down_initiated),
    {
        match self.assets.get(token_id) {
            Some(a) => a.wind_down_initiated,
            None => false,
        }
    }

    pub fn get_asset(&self, token_id: &[u8]) -> (r: Option<&AssetRecord>)
        requires
            self.wf(),
        ensures
            match r {
                Some(a) => self.assets@.contains_key(token_id@) && *a == self.assets@[token_id@],
                None => !self.assets@.contains_key(token_id@),
            },
    {
        self.assets.get(token_id)
    }

    /// The holder's compliance mirror for the token; refused when none exists.
    pub fn get_holder_mirror(&self, token_id: &[u8], holder: &[u8]) -> (r: Result<&DrwaHolderMirror, &'static str>)
        requires
            self.wf(),
        ensures
            match r {
                Ok(m) => self.holder_mirrors@.contains_key(key2(token_id@, holder@)) && *m == self.holder_mirrors@[key2(
                    token_id@,
                    holder@,
                )],
                Err(e) => !self.holder_mirrors@.contains_key(key2(token_id@, holder@)) && e == "holder mirror not found",
            },
    {
        match self.holder_mirrors.get(&make_key2(token_id, holder)) {
            Some(m) => Ok(m),
            None => Err("holder mirror not found"),
        }
    }

    /// The holder policy version of `(token_id, holder)` (`0` before the
    /// first sync).
    pub fn holder_policy_version(&self, token_id: &[u8], holder: &[u8]) -> (r: u64)
        requires
            self.wf(),
        ensures
            r == self.holder_version(token_id@, holder@),
    {
        match self.holder_policy_versions.get(&make_key2(token_id, holder)) {
            Some(v) => *v,
            None => 0,
        }
    }

    pub fn get_storage_version(&self) -> (r: u32)
        ensures
            r == self.storage_version,
    {
        self.storage_version
    }
}

/// Wind-down happens once per asset: a second initiation is refused.
pub proof fn lemma_wind_down_once(s: AssetManagerState, env: BlockchainEnv, token_id: Seq<u8>)
    requires
        s.assets@.contains_key(token_id),
        s.assets@[token_id].wind_down_initiated,
    ensures
        s.wind_down_error(&env, token_id) is Some,
{
}

} // verus!
