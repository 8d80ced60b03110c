//! DRWA attestation: an auditor, appointed by the owner through a
//! propose-accept handover, records and revokes attestations per holder and
//! token, each synced to the native mirror as an auditor authorization.
//!
//! Recording and revoking take `hook_status`, the status the native mirror
//! hook returns for the call's hook payload when it syncs a change (the
//! returned envelope's hash followed by its canonical payload). A non-zero status
//! refuses the call with "native mirror sync failed" and leaves the storage
//! as it was, so that the contract and the mirror never diverge.
use vstd::prelude::*;

use crate::bytes::{bytes_eq, copy_bytes, is_zero_address, key2, make_key2, new_zero_address, push_u64_be, u64_be, zero_address};
use crate::drwa_common::{
    check_sync_hook_status, envelope_hash, make_sync_envelope, require_valid_token_id, token_id_error, DrwaCallerDomain, DrwaSyncEnvelope,
    DrwaSyncOperation, DrwaSyncOperationType,
};
use crate::env::BlockchainEnv;
use crate::mrv_common::{slot_matches, slot_or_zero};
use crate::table::Table;

verus! {

/// Rounds during which a proposed auditor may accept the role.
pub const PENDING_AUDITOR_ACCEPTANCE_ROUNDS: u64 = 1_000;

/// Stores the latest attestation recorded for a subject and token pair.
pub struct AttestationRecord {
    pub token_id: Vec<u8>,
    pub subject: Vec<u8>,
    pub attestation_type: Vec<u8>,
    pub evidence_hash: Vec<u8>,
    pub approved: bool,
    pub attested_round: u64,
}

/// Event payload emitted when an attestation is recorded or revoked.
pub struct AttestationEventPayload {
    pub attestation_type: Vec<u8>,
    pub approved: bool,
    pub attested_round: u64,
}

/// Payload of `drwaAttestationOverwritten`, emitted before the new
/// attestation's record event when a stored one is replaced.
#[derive(Debug, PartialEq, Eq)]
pub struct AttestationOverwrittenEvent {
    pub token_id: Vec<u8>,
    pub subject: Vec<u8>,
    pub auditor: Vec<u8>,
}

/// The auditor-transfer events of the attestation contract.
#[derive(Debug, PartialEq, Eq)]
pub enum AuditorEvent {
    /// `drwaAuditorProposed`.
    Proposed { auditor: Vec<u8> },
    /// `drwaAuditorAccepted`.
    Accepted { auditor: Vec<u8> },
    /// `drwaAuditorRevoked`: the auditor it had (zero when none).
    Revoked { previous_auditor: Vec<u8> },
}

/// The storage of the attestation contract.
pub struct AttestationState {
    pub auditor: Option<Vec<u8>>,
    pub pending_auditor: Option<Vec<u8>>,
    pub pending_auditor_expires_at_round: u64,
    /// Attestations by `key2(token_id, subject)`.
    pub attestations: Table<AttestationRecord>,
    /// Authorization versions by `key2(token_id, subject)`; absent reads as `0`.
    pub authorization_versions: Table<u64>,
    pub storage_version: u32,
}

/// The body of an auditor-authorization operation: the version, then the
/// flag as one byte.
pub open spec fn authorization_body(version: u64, approved: bool) -> Seq<u8> {
    u64_be(version) + seq![if approved { 1u8 } else { 0u8 }]
}

/// `e` is an attestation envelope with no operation.
pub open spec fn noop_envelope(e: DrwaSyncEnvelope) -> bool {
    &&& e.caller_domain == DrwaCallerDomain::Attestation
    &&& e.operations@.len() == 0
    &&& e.payload_hash@ == envelope_hash(e.caller_domain, e.operations@)
}

/// `e` syncs the authorization of `subject` for `token_id` at `version`.
pub open spec fn authorization_envelope(e: DrwaSyncEnvelope, token_id: Seq<u8>, subject: Seq<u8>, version: u64, approved: bool) -> bool {
    &&& e.caller_domain == DrwaCallerDomain::Attestation
    &&& e.operations@.len() == 1
    &&& e.operations@[0].operation_type == DrwaSyncOperationType::HolderAuditorAuthorization
    &&& e.operations@[0].token_id@ == token_id
    &&& e.operations@[0].holder@ == subject
    &&& e.operations@[0].version == version
    &&& e.operations@[0].body@ == authorization_body(version, approved)
    &&& e.payload_hash@ == envelope_hash(e.caller_domain, e.operations@)
}

impl AttestationState {
    pub open spec fn wf(&self) -> bool {
        &&& self.attestations.wf()
        &&& self.authorization_versions.wf()
    }

    pub open spec fn version(&self, token_id: Seq<u8>, subject: Seq<u8>) -> u64 {
        let k = key2(token_id, subject);
        if self.authorization_versions@.contains_key(k) { self.authorization_versions@[k] } else { 0 }
    }

    pub open spec fn record_error(&self, env: &BlockchainEnv, token_id: Seq<u8>, subject: Seq<u8>) -> Option<&'static str> {
        if env.caller@ != slot_or_zero(self.auditor) {
            Some("caller not auditor")
        } else if subject == zero_address() {
            Some("ZERO_ADDRESS: subject must not be zero")
        } else {
            token_id_error(token_id)
        }
    }

    /// Whether recording repeats the stored attestation (type, evidence and
    /// decision), which changes nothing.
    pub open spec fn repeats(&self, token_id: Seq<u8>, subject: Seq<u8>, attestation_type: Seq<u8>, evidence_hash: Seq<u8>, approved: bool) -> bool {
        let k = key2(token_id, subject);
        &&& self.attestations@.contains_key(k)
        &&& self.attestations@[k].attestation_type@ == attestation_type
        &&& self.attestations@[k].evidence_hash@ == evidence_hash
        &&& self.attestations@[k].approved == approved
    }

    pub open spec fn revoke_error(&self, env: &BlockchainEnv, token_id: Seq<u8>, subject: Seq<u8>) -> Option<&'static str> {
        if env.caller@ != slot_or_zero(self.auditor) {
            Some("caller not auditor")
        } else if subject == zero_address() {
            Some("subject address must not be zero")
        } else if token_id_error(token_id) is Some {
            token_id_error(token_id)
        } else if !self.attestations@.contains_key(key2(token_id, subject)) {
            Some("attestation does not exist")
        } else {
            None
        }
    }
}

/// An attestation envelope without operations (for a call that changes nothing).
fn emit_sync_noop_envelope() -> (e: DrwaSyncEnvelope)
    ensures
        noop_envelope(e),
{
    make_sync_envelope(DrwaCallerDomain::Attestation, Vec::new())
}

/// The endpoints of the attestation contract.
pub trait DrwaAttestation: Sized {
    spec fn valid(&self) -> bool;

    fn init(env: &BlockchainEnv, auditor: Vec<u8>) -> (r: Result<Self, &'static str>)
        ensures
            r matches Ok(s) ==> s.valid();

    fn set_auditor(&mut self, env: &BlockchainEnv, auditor: Vec<u8>) -> (r: Result<AuditorEvent, &'static str>)
        requires old(self).valid(), ensures final(self).valid();

    fn accept_auditor(&mut self, env: &BlockchainEnv) -> (r: Result<AuditorEvent, &'static str>)
        requires old(self).valid(), ensures final(self).valid();

    fn revoke_auditor(&mut self, env: &BlockchainEnv) -> (r: Result<AuditorEvent, &'static str>)
        requires old(self).valid(), ensures final(self).valid();

    fn record_attestation(
        &mut self,
        env: &BlockchainEnv,
        token_id: Vec<u8>,
        subject: Vec<u8>,
        attestation_type: Vec<u8>,
        evidence_hash: Vec<u8>,
        approved: bool,
        hook_status: i32,
    ) -> (r: Result<(Option<AttestationOverwrittenEvent>, Option<AttestationEventPayload>, DrwaSyncEnvelope), &'static str>)
        requires old(self).valid(), ensures final(self).valid();

    fn revoke_attestation(&mut self, env: &BlockchainEnv, token_id: Vec<u8>, subject: Vec<u8>, hook_status: i32) -> (r: Result<
        (Option<AttestationEventPayload>, DrwaSyncEnvelope),
        &'static str,
    >)
        requires old(self).valid(), ensures final(self).valid();

    fn upgrade(&mut self)
        requires old(self).valid(), ensures final(self).valid();
}

impl AttestationState {
    /// Bumps the authorization version of `(token_id, subject)` and builds
    /// the envelope that syncs the new authorization.
    fn emit_auditor_authorization_sync(&mut self, token_id: Vec<u8>, subject: Vec<u8>, approved: bool) -> (r: Result<
        DrwaSyncEnvelope,
        &'static str,
    >)
        requires
            old(self).wf(),
        ensures
            final(self).wf(),
            old(self).version(token_id@, subject@) == u64::MAX ==> r == Err::<DrwaSyncEnvelope, &'static str>("version overflow")
                && *final(self) == *old(self),
            old(self).version(token_id@, subject@) < u64::MAX ==> {
                let v = (old(self).version(token_id@, subject@) + 1) as u64;
                &&& r matches Ok(e) && authorization_envelope(e, token_id@, subject@, v, approved)
                &&& final(self).authorization_versions@ == old(self).authorization_versions@.insert(key2(token_id@, subject@), v)
                &&& *final(self) == (AttestationState { authorization_versions: final(self).authorization_versions, ..*old(self) })
            },
    {
        let key = make_key2(&token_id, &subject);
        let version: u64 = match self.authorization_versions.get(&key) {
            Some(v) => *v,
            None => 0,
        };
        if version == u64::MAX {
            return Err("version overflow");
        }
        let next_version = version + 1;
        self.authorization_versions.insert(key, next_version);
        let mut body: Vec<u8> = Vec::new();
        push_u64_be(&mut body, next_version);
        body.push(if approved { 1u8 } else { 0u8 });
        assert(body@ =~= authorization_body(next_version, approved));
        let mut operations: Vec<DrwaSyncOperation> = Vec::new();
        operations.push(
            DrwaSyncOperation {
                operation_type: DrwaSyncOperationType::HolderAuditorAuthorization,
                token_id,
                holder: subject,
                version: next_version,
                body,
            },
        );
        Ok(make_sync_envelope(DrwaCallerDomain::Attestation, operations))
    }
}

impl DrwaAttestation for AttestationState {
    open spec fn valid(&self) -> bool {
        self.wf()
    }

    fn init(env: &BlockchainEnv, auditor: Vec<u8>) -> (r: Result<Self, &'static str>)
        ensures
            auditor@ == zero_address() ==> r == Err::<Self, &'static str>("auditor must not be zero"),
            auditor@ != zero_address() ==> (r matches Ok(s) && {
                &&& s.wf()
                &&& s.auditor == Some(auditor)
                &&& s.pending_auditor is None
                &&& s.attestations@ == Map::<Seq<u8>, AttestationRecord>::empty()
                &&& s.authorization_versions@ == Map::<Seq<u8>, u64>::empty()
                &&& s.storage_version == 1
            }),
    {
        if is_zero_address(&auditor) {
            return Err("auditor must not be zero");
        }
        Ok(AttestationState {
            auditor: Some(auditor),
            pending_auditor: None,
            pending_auditor_expires_at_round: 0,
            attestations: Table::new(),
            authorization_versions: Table::new(),
            storage_version: 1,
        })
    }

    /// The owner proposes an auditor, who must accept within
    /// `PENDING_AUDITOR_ACCEPTANCE_ROUNDS` rounds.
    fn set_auditor(&mut self, env: &BlockchainEnv, auditor: Vec<u8>) -> (r: Result<AuditorEvent, &'static str>)
        ensures
            env.caller@ != env.owner@ ==> r == Err::<AuditorEvent, &'static str>("Endpoint can only be called by owner") && *final(self) == *old(self),
            env.caller@ == env.owner@ && auditor@ == zero_address() ==> r == Err::<AuditorEvent, &'static str>("auditor must not be zero")
                && *final(self) == *old(self),
            env.caller@ == env.owner@ && auditor@ != zero_address() && env.block_round + PENDING_AUDITOR_ACCEPTANCE_ROUNDS > u64::MAX
                ==> r == Err::<AuditorEvent, &'static str>("auditor acceptance round overflow") && *final(self) == *old(self),
            env.caller@ == env.owner@ && auditor@ != zero_address() && env.block_round + PENDING_AUDITOR_ACCEPTANCE_ROUNDS <= u64::MAX
                ==> (r matches Ok(AuditorEvent::Proposed { auditor: a }) && a@ == auditor@) && *final(self) == (AttestationState {
                pending_auditor: Some(auditor),
                pending_auditor_expires_at_round: (env.block_round + PENDING_AUDITOR_ACCEPTANCE_ROUNDS) as u64,
                ..*old(self)
            }),
    {
        if !bytes_eq(&env.caller, &env.owner) {
            return Err("Endpoint can only be called by owner");
        }
        if is_zero_address(&auditor) {
            return Err("auditor must not be zero");
        }
        if env.block_round > u64::MAX - PENDING_AUDITOR_ACCEPTANCE_ROUNDS {
            return Err("auditor acceptance round overflow");
        }
        let event = AuditorEvent::Proposed { auditor: copy_bytes(&auditor) };
        self.pending_auditor = Some(auditor);
        self.pending_auditor_expires_at_round = env.block_round + PENDING_AUDITOR_ACCEPTANCE_ROUNDS;
        Ok(event)
    }

    /// The proposed auditor takes the role before the window closes.
    fn accept_auditor(&mut self, env: &BlockchainEnv) -> (r: Result<AuditorEvent, &'static str>)
        ensures
            match old(self).pending_auditor {
                None => r == Err::<AuditorEvent, &'static str>("pending auditor not set") && *final(self) == *old(self),
                Some(p) => if env.block_round > old(self).pending_auditor_expires_at_round {
                    r == Err::<AuditorEvent, &'static str>("pending auditor acceptance expired") && *final(self) == *old(self)
                } else if env.caller@ != p@ {
                    r == Err::<AuditorEvent, &'static str>("caller not pending auditor") && *final(self) == *old(self)
                } else {
                    (r matches Ok(AuditorEvent::Accepted { auditor: a }) && a@ == p@) && *final(self) == (AttestationState {
                        auditor: Some(p),
                        pending_auditor: None,
                        pending_auditor_expires_at_round: 0,
                        ..*old(self)
                    })
                },
            },
    {
        let expires = self.pending_auditor_expires_at_round;
        match &self.pending_auditor {
            None => {
                return Err("pending auditor not set");
            },
            Some(p) => {
                if env.block_round > expires {
                    return Err("pending auditor acceptance expired");
                }
                if !bytes_eq(&env.caller, p) {
                    return Err("caller not pending auditor");
                }
            },
        }
        let event = match &self.pending_auditor {
            Some(p) => AuditorEvent::Accepted { auditor: copy_bytes(p) },
            None => AuditorEvent::Accepted { auditor: Vec::new() },
        };
        self.auditor = self.pending_auditor.take();
        self.pending_auditor_expires_at_round = 0;
        Ok(event)
    }

    /// The owner removes the auditor and any pending proposal.
    fn revoke_auditor(&mut self, env: &BlockchainEnv) -> (r: Result<AuditorEvent, &'static str>)
        ensures
            env.caller@ != env.owner@ ==> r == Err::<AuditorEvent, &'static str>("Endpoint can only be called by owner") && *final(self) == *old(self),
            env.caller@ == env.owner@ ==> (r matches Ok(AuditorEvent::Revoked { previous_auditor: a }) && a@ == slot_or_zero(old(self).auditor))
                && *final(self) == (AttestationState {
                auditor: None,
                pending_auditor: None,
                pending_auditor_expires_at_round: 0,
                ..*old(self)
            }),
    {
        if !bytes_eq(&env.caller, &env.owner) {
            return Err("Endpoint can only be called by owner");
        }
        let previous_auditor = match &self.auditor {
            Some(a) => copy_bytes(a),
            None => new_zero_address(),
        };
        self.auditor = None;
        self.pending_auditor = None;
        self.pending_auditor_expires_at_round = 0;
        Ok(AuditorEvent::Revoked { previous_auditor })
    }

    /// The auditor records (or replaces) the attestation of a subject for a
    /// token; repeating the stored attestation changes nothing and returns
    /// an empty envelope.
    fn record_attestation(
        &mut self,
        env: &BlockchainEnv,
        token_id: Vec<u8>,
        subject: Vec<u8>,
        attestation_type: Vec<u8>,
        evidence_hash: Vec<u8>,
        approved: bool,
        hook_status: i32,
    ) -> (r: Result<(Option<AttestationOverwrittenEvent>, Option<AttestationEventPayload>, DrwaSyncEnvelope), &'static str>)
        ensures
            ({
                let k = key2(token_id@, subject@);
                if old(self).record_error(env, token_id@, subject@) is Some {
                    r == Err::<(Option<AttestationOverwrittenEvent>, Option<AttestationEventPayload>, DrwaSyncEnvelope), &'static str>(
                        old(self).record_error(env, token_id@, subject@)->0,
                    ) && *final(self) == *old(self)
                } else if old(self).repeats(token_id@, subject@, attestation_type@, evidence_hash@, approved) {
                    r matches Ok((None, None, e)) && noop_envelope(e) && *final(self) == *old(self)
                } else if old(self).version(token_id@, subject@) == u64::MAX {
                    r == Err::<(Option<AttestationOverwrittenEvent>, Option<AttestationEventPayload>, DrwaSyncEnvelope), &'static str>("version overflow")
                        && *final(self) == *old(self)
                } else if hook_status != 0 {
                    r == Err::<(Option<AttestationOverwrittenEvent>, Option<AttestationEventPayload>, DrwaSyncEnvelope), &'static str>(
                        "native mirror sync failed",
                    ) && *final(self) == *old(self)
                } else {
                    let v = (old(self).version(token_id@, subject@) + 1) as u64;
                    let a = final(self).attestations@[k];
                    &&& r matches Ok((ow, Some(ev), e)) && (ow is Some <==> old(self).attestations@.contains_key(k))
                        && (ow matches Some(o) ==> o.token_id@ == token_id@ && o.subject@ == subject@ && o.auditor@ == env.caller@)
                        && ev.attestation_type@ == attestation_type@ && ev.approved == approved
                        && ev.attested_round == env.block_round && authorization_envelope(e, token_id@, subject@, v, approved)
                    &&& final(self).attestations@ == old(self).attestations@.insert(k, a)
                    &&& a.token_id@ == token_id@ && a.subject@ == subject@ && a.attestation_type@ == attestation_type@
                        && a.evidence_hash@ == evidence_hash@ && a.approved == approved && a.attested_round == env.block_round
                    &&& final(self).authorization_versions@ == old(self).authorization_versions@.insert(k, v)
                    &&& *final(self) == (AttestationState {
                        attestations: final(self).attestations,
                        authorization_versions: final(self).authorization_versions,
                        ..*old(self)
                    })
                }
            }),
    {
        if !slot_matches(&self.auditor, &env.caller) {
            return Err("caller not auditor");
        }
        if is_zero_address(&subject) {
            return Err("ZERO_ADDRESS: subject must not be zero");
        }
        if let Err(e) = require_valid_token_id(&token_id) {
            return Err(e);
        }
        let key = make_key2(&token_id, &subject);
        if let Some(current) = self.attestations.get(&key) {
            if bytes_eq(&current.attestation_type, &attestation_type) && bytes_eq(&current.evidence_hash, &evidence_hash)
                && current.approved == approved {
                return Ok((None, None, emit_sync_noop_envelope()));
            }
        }
        let version: u64 = match self.authorization_versions.get(&key) {
            Some(v) => *v,
            None => 0,
        };
        if version == u64::MAX {
            return Err("version overflow");
        }
        let overwritten = if self.attestations.contains_key(&key) {
            Some(AttestationOverwrittenEvent {
                token_id: copy_bytes(&token_id),
                subject: copy_bytes(&subject),
                auditor: copy_bytes(&env.caller),
            })
        } else {
            None
        };
        let event = AttestationEventPayload {
            attestation_type: copy_bytes(&attestation_type),
            approved,
            attested_round: env.block_round,
        };
        let record = AttestationRecord {
            token_id: copy_bytes(&token_id),
            subject: copy_bytes(&subject),
            attestation_type,
            evidence_hash,
            approved,
            attested_round: env.block_round,
        };
        if let Err(e) = check_sync_hook_status(hook_status) {
            return Err(e);
        }
        self.attestations.insert(key, record);
        match self.emit_auditor_authorization_sync(token_id, subject, approved) {
            Ok(e) => Ok((overwritten, Some(event), e)),
            Err(e) => Err(e),
        }
    }

    /// The auditor withdraws an approved attestation; revoking one that is
    /// not approved changes nothing and returns an empty envelope.
    fn revoke_attestation(&mut self, env: &BlockchainEnv, token_id: Vec<u8>, subject: Vec<u8>, hook_status: i32) -> (r: Result<
        (Option<AttestationEventPayload>, DrwaSyncEnvelope),
        &'static str,
    >)
        ensures
            ({
                let k = key2(token_id@, subject@);
                let prev = old(self).attestations@[k];
                if old(self).revoke_error(env, token_id@, subject@) is Some {
                    r == Err::<(Option<AttestationEventPayload>, DrwaSyncEnvelope), &'static str>(
                        old(self).revoke_error(env, token_id@, subject@)->0,
                    ) && *final(self) == *old(self)
                } else if !prev.approved {
                    r matches Ok((None, e)) && noop_envelope(e) && *final(self) == *old(self)
                } else if old(self).version(token_id@, subject@) == u64::MAX {
                    r == Err::<(Option<AttestationEventPayload>, DrwaSyncEnvelope), &'static str>("version overflow")
                        && *final(self) == *old(self)
                } else if hook_status != 0 {
                    r == Err::<(Option<AttestationEventPayload>, DrwaSyncEnvelope), &'static str>("native mirror sync failed")
                        && *final(self) == *old(self)
                } else {
                    let v = (old(self).version(token_id@, subject@) + 1) as u64;
                    &&& r matches Ok((Some(ev), e)) && ev.attestation_type@ == prev.attestation_type@ && !ev.approved
                        && ev.attested_round == env.block_round && authorization_envelope(e, token_id@, subject@, v, false)
                    &&& final(self).attestations@ == old(self).attestations@.insert(k, AttestationRecord { approved: false, ..prev })
                    &&& final(self).authorization_versions@ == old(self).authorization_versions@.insert(k, v)
                    &&& *final(self) == (AttestationState {
                        attestations: final(self).attestations,
                        authorization_versions: final(self).authorization_versions,
                        ..*old(self)
                    })
                }
            }),
    {
        if !slot_matches(&self.auditor, &env.caller) {
            return Err("caller not auditor");
        }
        if is_zero_address(&subject) {
            return Err("subject address must not be zero");
        }
        if let Err(e) = require_valid_token_id(&token_id) {
            return Err(e);
        }
        let key = make_key2(&token_id, &subject);
        let (approved, attestation_type) = match self.attestations.get(&key) {
            None => {
                return Err("attestation does not exist");
            },
            Some(a) => (a.approved, copy_bytes(&a.attestation_type)),
        };
        if !approved {
            return Ok((None, emit_sync_noop_envelope()));
        }
        let version: u64 = match self.authorization_versions.get(&key) {
            Some(v) => *v,
            None => 0,
        };
        if version == u64::MAX {
            return Err("version overflow");
        }
        if let Err(e) = check_sync_hook_status(hook_status) {
            return Err(e);
        }
        let ghost k = key@;
        let taken = self.attestations.take(&key);
        match taken {
            Some(a) => {
                self.attestations.insert(copy_bytes(&key), AttestationRecord { approved: false, ..a });
                assert(self.attestations@ =~= old(self).attestations@.insert(k, AttestationRecord { approved: false, ..old(self).attestations@[k] }));
            },
            None => {},
        }
        let event = AttestationEventPayload { attestation_type, approved: false, attested_round: env.block_round };
        match self.emit_auditor_authorization_sync(token_id, subject, false) {
            Ok(e) => Ok((Some(event), e)),
            Err(e) => Err(e),
        }
    }

    /// Writes storage version 1 when none is recorded yet.
    fn upgrade(&mut self)
        ensures
            *final(self) == (AttestationState {
                storage_version: if old(self).storage_version < 1 { 1 } else { old(self).storage_version },
                ..*old(self)
            }),
    {
        if self.storage_version < 1 {
            self.storage_version = 1;
        }
    }
}

impl AttestationState {
    pub fn get_attestation(&self, token_id: &[u8], subject: &[u8]) -> (r: Option<&AttestationRecord>)
        requires
            self.wf(),
        ensures
            match r {
                Some(a) => self.attestations@.contains_key(key2(token_id@, subject@)) && *a == self.attestations@[key2(token_id@, subject@)],
                None => !self.attestations@.contains_key(key2(token_id@, subject@)),
            },
    {
        self.attestations.get(&make_key2(token_id, subject))
    }

    /// The active auditor (the zero address when there is none).
    pub fn get_auditor(&self) -> (r: Vec<u8>)
        ensures
            r@ == slot_or_zero(self.auditor),
    {
        match &self.auditor {
            Some(a) => copy_bytes(a),
            None => crate::bytes::new_zero_address(),
        }
    }

    pub fn get_storage_version(&self) -> (r: u32)
        ensures
            r == self.storage_version,
    {
        self.storage_version
    }
}

} // verus!
