//! Calls into the MultiversX framework for hashing, signature checking and
//! token-identifier validation. Each item here is trusted: its contract is
//! what the framework's source shows, not something proved.
use vstd::prelude::*;

use multiversx_sc::contract_base::CryptoWrapper;
use multiversx_sc::types::{ManagedBuffer, TokenId};
use multiversx_sc_scenario::api::StaticApi;

verus! {

/// The Keccak-256 digest of `data`, as the MultiversX crypto API computes it.
pub uninterp spec fn keccak256_of(data: Seq<u8>) -> Seq<u8>;

/// The SHA-256 digest of `data`, as the MultiversX crypto API computes it.
pub uninterp spec fn sha256_of(data: Seq<u8>) -> Seq<u8>;

/// Whether `signature` is a valid Ed25519 signature of `message` under `key`.
pub uninterp spec fn ed25519_valid(key: Seq<u8>, message: Seq<u8>, signature: Seq<u8>) -> bool;

/// Whether `b` is an ASCII uppercase letter or digit.
pub open spec fn is_upper_alnum(b: u8) -> bool {
    (65u8 <= b <= 90u8) || (48u8 <= b <= 57u8)
}

/// Whether `b` is an ASCII lowercase letter or digit.
pub open spec fn is_lower_alnum(b: u8) -> bool {
    (97u8 <= b <= 122u8) || (48u8 <= b <= 57u8)
}

/// The framework's ESDT identifier rule: 10 to 17 bytes, an uppercase
/// alphanumeric ticker, a dash, and six lowercase alphanumeric characters.
pub open spec fn esdt_identifier_valid(t: Seq<u8>) -> bool {
    &&& 10 <= t.len() <= 17
    &&& forall|i: int| 0 <= i < t.len() - 7 ==> is_upper_alnum(#[trigger] t[i])
    &&& t[t.len() - 7] == 45u8
    &&& forall|i: int| t.len() - 6 <= i < t.len() ==> is_lower_alnum(#[trigger] t[i])
}

/// The bytes by which the framework names the native token in legacy form.
pub open spec fn legacy_native_token() -> Seq<u8> {
    seq![69u8, 71u8, 76u8, 68u8]
}

/// Calls `CryptoWrapper::keccak256`. The framework returns a 32-byte array;
/// its value is named by `keccak256_of`.
#[verifier::external_body]
pub(crate) fn keccak256(data: &[u8]) -> (r: Vec<u8>)
    ensures
        r@ == keccak256_of(data@),
        r@.len() == 32,
{
    let buf = ManagedBuffer::<StaticApi>::new_from_bytes(data);
    CryptoWrapper::<StaticApi>::new().keccak256(&buf).to_byte_array().to_vec()
}

/// Calls `CryptoWrapper::sha256`. The framework returns a 32-byte array;
/// its value is named by `sha256_of`.
#[verifier::external_body]
pub(crate) fn sha256(data: &[u8]) -> (r: Vec<u8>)
    ensures
        r@ == sha256_of(data@),
        r@.len() == 32,
{
    let buf = ManagedBuffer::<StaticApi>::new_from_bytes(data);
    CryptoWrapper::<StaticApi>::new().sha256(&buf).to_byte_array().to_vec()
}

/// Calls `multiversx_chain_vm::crypto_functions::verify_ed25519`, the check
/// behind the VM's `verifyEd25519` hook. Its source returns `false` for a key
/// that is not 32 bytes or a signature that is not 64 bytes; beyond that its
/// answer is named by `ed25519_valid`.
#[verifier::external_body]
pub(crate) fn verify_ed25519(key: &[u8], message: &[u8], signature: &[u8]) -> (r: bool)
    ensures
        r == ed25519_valid(key@, message@, signature@),
        key@.len() != 32 ==> !r,
        signature@.len() != 64 ==> !r,
{
    multiversx_chain_vm::crypto_functions::verify_ed25519(key, message, signature)
}

/// Calls `TokenId::is_valid` on the framework's conversion of `token`. The
/// conversion turns the empty string and the legacy `EGLD` name into
/// `EGLD-000000`, which the rule accepts; every other input is checked as
/// it stands.
#[verifier::external_body]
pub(crate) fn is_valid_esdt_identifier(token: &[u8]) -> (r: bool)
    ensures
        token@ != Seq::<u8>::empty() && token@ != legacy_native_token() ==> r == esdt_identifier_valid(token@),
        token@ == Seq::<u8>::empty() || token@ == legacy_native_token() ==> r,
{
    TokenId::<StaticApi>::from(ManagedBuffer::<StaticApi>::new_from_bytes(token)).is_valid()
}

} // verus!
