//! Oracle aggregator for MRV monitoring periods: collects IoT, satellite
//! and government-lab readings, enforces a quorum, detects divergence
//! between IoT and satellite readings, and seals each period into a
//! deterministic MRV root.
use vstd::prelude::*;

use crate::bytes::{
    bytes_eq, copy_bytes, is_zero_address, key2, key3, len64_prefixed, lit, make_key2, make_key3, push_bytes,
    push_len64_prefixed, push_u64_be, u64_be, zero_address,
};
use crate::crypto::{ed25519_valid, sha256, sha256_of, verify_ed25519};
use crate::env::BlockchainEnv;
use crate::mrv_common::{
    not_paused_error, period_key, require_not_paused, source_key, storage_version_upgrade_spec, upgrade_storage_version,
    MrvGovernanceModule, MrvGovernanceState, PauseProbe,
};
use crate::table::Table;

verus! {

/// The most oracle sources a period can have: IoT, satellite, government lab.
pub const MAX_ORACLE_SOURCES: usize = 3;

pub const SOURCE_IOT: u8 = 0;

pub const SOURCE_SATELLITE: u8 = 1;

pub const SOURCE_GOVT_LAB: u8 = 2;

pub const DEFAULT_IOT_WINDOW: u64 = 172_800;

pub const DEFAULT_SATELLITE_WINDOW: u64 = 864_000;

pub const DEFAULT_GOVT_LAB_WINDOW: u64 = 2_592_000;

pub const MIN_COHERENCE_WINDOW: u64 = 60;

pub const MAX_COHERENCE_WINDOW: u64 = 2_592_000;

pub const DEFAULT_DIVERGENCE_THRESHOLD_BPS: u64 = 3000;

/// The smallest quorum: two readings out of three.
pub const QUORUM_MIN: u32 = 2;

// ── byte order and decimal parsing ──────────────────────────────────────

/// Lexicographic "greater than" on byte strings: the first differing byte
/// decides, and a proper extension is greater than its prefix.
pub open spec fn lex_gt(a: Seq<u8>, b: Seq<u8>) -> bool
    decreases a.len(),
{
    if a.len() == 0 {
        false
    } else if b.len() == 0 {
        true
    } else if a[0] != b[0] {
        a[0] > b[0]
    } else {
        lex_gt(a.drop_first(), b.drop_first())
    }
}

/// `lex_gt` is asymmetric.
pub proof fn lemma_lex_gt_asymmetric(a: Seq<u8>, b: Seq<u8>)
    ensures
        lex_gt(a, b) ==> !lex_gt(b, a),
    decreases a.len(),
{
    if a.len() > 0 && b.len() > 0 && a[0] == b[0] {
        lemma_lex_gt_asymmetric(a.drop_first(), b.drop_first());
    }
}

/// "Not greater" is transitive, so `lex_gt` orders byte strings totally.
pub proof fn lemma_lex_le_transitive(a: Seq<u8>, b: Seq<u8>, c: Seq<u8>)
    ensures
        !lex_gt(a, b) && !lex_gt(b, c) ==> !lex_gt(a, c),
    decreases a.len(),
{
    if a.len() > 0 && b.len() > 0 && c.len() > 0 && a[0] == b[0] && b[0] == c[0] {
        lemma_lex_le_transitive(a.drop_first(), b.drop_first(), c.drop_first());
    }
}

/// Whether `left` sorts after `right` as a byte string.
pub fn managed_buffer_lex_gt(left: &[u8], right: &[u8]) -> (r: bool)
    ensures
        r == lex_gt(left@, right@),
{
    let shared_len = if left.len() < right.len() { left.len() } else { right.len() };
    let mut index: usize = 0;
    assert(left@.subrange(0, left@.len() as int) =~= left@);
    assert(right@.subrange(0, right@.len() as int) =~= right@);
    while index < shared_len
        invariant
            shared_len <= left@.len(),
            shared_len <= right@.len(),
            shared_len == left@.len() || shared_len == right@.len(),
            index <= shared_len,
            lex_gt(left@, right@) == lex_gt(
                left@.subrange(index as int, left@.len() as int),
                right@.subrange(index as int, right@.len() as int),
            ),
        decreases shared_len - index,
    {
        let l = left[index];
        let rb = right[index];
        let ghost ls = left@.subrange(index as int, left@.len() as int);
        let ghost rs = right@.subrange(index as int, right@.len() as int);
        assert(ls[0] == l && rs[0] == rb);
        if l > rb {
            return true;
        }
        if l < rb {
            return false;
        }
        assert(ls.drop_first() =~= left@.subrange(index + 1, left@.len() as int));
        assert(rs.drop_first() =~= right@.subrange(index + 1, right@.len() as int));
        index = index + 1;
    }
    let ghost ls = left@.subrange(index as int, left@.len() as int);
    let ghost rs = right@.subrange(index as int, right@.len() as int);
    assert(ls.len() == 0 || rs.len() == 0);
    left.len() > right.len()
}

pub open spec fn is_ascii_digit(b: u8) -> bool {
    48u8 <= b <= 57u8
}

pub open spec fn all_digits(s: Seq<u8>) -> bool {
    forall|i: int| 0 <= i < s.len() ==> #[trigger] is_ascii_digit(s[i])
}

/// The number that the decimal digits `s` spell.
pub open spec fn decimal_value(s: Seq<u8>) -> nat
    decreases s.len(),
{
    if s.len() == 0 {
        0
    } else {
        decimal_value(s.drop_last()) * 10 + (s.last() - 48u8) as nat
    }
}

/// The value of an ASCII decimal string that fits in a `u64`; `None` for
/// the empty string, a non-digit, or a value above `u64::MAX`.
pub open spec fn ascii_u64(s: Seq<u8>) -> Option<u64> {
    if s.len() == 0 || !all_digits(s) || decimal_value(s) > u64::MAX {
        None
    } else {
        Some(decimal_value(s) as u64)
    }
}

/// Over digits, a prefix never spells a larger number than the whole.
proof fn lemma_decimal_prefix_le(s: Seq<u8>, n: int)
    requires
        0 <= n <= s.len(),
        all_digits(s),
    ensures
        decimal_value(s.take(n)) <= decimal_value(s),
    decreases s.len() - n,
{
    if n < s.len() {
        lemma_decimal_prefix_le(s, n + 1);
        assert(s.take(n + 1).drop_last() =~= s.take(n));
        assert(is_ascii_digit(s[n]));
    } else {
        assert(s.take(n) =~= s);
    }
}

/// Parses an ASCII decimal `u64`, refusing empty input, non-digits and
/// overflow.
pub fn parse_ascii_u64(bytes: &[u8]) -> (r: Option<u64>)
    ensures
        r == ascii_u64(bytes@),
{
    if bytes.len() == 0 {
        return None;
    }
    let mut result: u64 = 0;
    let mut i: usize = 0;
    while i < bytes.len()
        invariant
            i <= bytes@.len(),
            all_digits(bytes@.take(i as int)),
            result == decimal_value(bytes@.take(i as int)),
        decreases bytes@.len() - i,
    {
        let b = bytes[i];
        assert(bytes@.take(i + 1).drop_last() =~= bytes@.take(i as int));
        if !(48u8 <= b && b <= 57u8) {
            assert(!is_ascii_digit(bytes@[i as int]));
            return None;
        }
        let digit: u64 = (b - 48u8) as u64;
        if result > (u64::MAX - digit) / 10 {
            proof {
                assert(all_digits(bytes@.take(i + 1)));
                assert(decimal_value(bytes@.take(i + 1)) > u64::MAX) by (nonlinear_arith)
                    requires
                        result > (u64::MAX - digit) / 10,
                        decimal_value(bytes@.take(i + 1)) == result * 10 + digit,
                        digit <= 9,
                ;
                if all_digits(bytes@) {
                    lemma_decimal_prefix_le(bytes@, i + 1);
                }
            }
            return None;
        }
        assert(result * 10 + digit <= u64::MAX) by (nonlinear_arith)
            requires
                result <= (u64::MAX - digit) / 10,
                digit <= 9,
        ;
        result = result * 10 + digit;
        i = i + 1;
    }
    assert(bytes@.take(bytes@.len() as int) =~= bytes@);
    Some(result)
}

/// Whether two IoT and satellite CIDs diverge: equal CIDs never do; two
/// decimal readings diverge when they differ by more than `threshold_bps`;
/// anything else diverges.
pub open spec fn diverges(iot: Seq<u8>, satellite: Seq<u8>, threshold_bps: u64) -> bool {
    if iot == satellite {
        false
    } else {
        match (ascii_u64(iot), ascii_u64(satellite)) {
            (Some(a), Some(b)) => (if a >= b { a - b } else { b - a }) > threshold_bps,
            _ => true,
        }
    }
}

/// How IoT and satellite readings are compared: divergence does not depend
/// on which reading is which, a reading never diverges from itself, two
/// distinct decimal readings diverge exactly when they differ by more than
/// the threshold, and raising the threshold never creates a divergence.
pub proof fn lemma_divergence_rule(a: Seq<u8>, b: Seq<u8>, threshold_bps: u64, larger_bps: u64)
    ensures
        diverges(a, b, threshold_bps) == diverges(b, a, threshold_bps),
        !diverges(a, a, threshold_bps),
        a != b && ascii_u64(a) is Some && ascii_u64(b) is Some ==> (diverges(a, b, threshold_bps) <==> (
            ascii_u64(a)->0 - ascii_u64(b)->0 > threshold_bps || ascii_u64(b)->0 - ascii_u64(a)->0 > threshold_bps)),
        a != b && (ascii_u64(a) is None || ascii_u64(b) is None) ==> diverges(a, b, threshold_bps),
        threshold_bps <= larger_bps && diverges(a, b, larger_bps) ==> diverges(a, b, threshold_bps),
{
}

/// Whether the IoT and satellite readings diverge beyond the threshold.
pub fn check_semantic_divergence(iot_cid: &[u8], satellite_cid: &[u8], threshold_bps: u64) -> (r: bool)
    ensures
        r == diverges(iot_cid@, satellite_cid@, threshold_bps),
{
    if bytes_eq(iot_cid, satellite_cid) {
        return false;
    }
    match (parse_ascii_u64(iot_cid), parse_ascii_u64(satellite_cid)) {
        (Some(a), Some(b)) => {
            let diff = if a >= b { a - b } else { b - a };
            diff > threshold_bps
        },
        _ => true,
    }
}

// ── the MRV root ────────────────────────────────────────────────────────

/// Swaps positions `i` and `i + 1` when they are out of lexicographic order.
pub open spec fn compare_exchange(s: Seq<Seq<u8>>, i: int) -> Seq<Seq<u8>> {
    if 0 <= i && i + 1 < s.len() && lex_gt(s[i], s[i + 1]) {
        s.update(i, s[i + 1]).update(i + 1, s[i])
    } else {
        s
    }
}

/// Up to three CIDs in ascending lexicographic order: insertion sort on
/// three items performs exactly these compare-exchanges.
pub open spec fn lex_sort3(s: Seq<Seq<u8>>) -> Seq<Seq<u8>> {
    compare_exchange(compare_exchange(compare_exchange(s, 0), 1), 0)
}

/// The sorted CIDs are in ascending order and hold the same CIDs.
pub proof fn lemma_lex_sort3_sorted(s: Seq<Seq<u8>>)
    requires
        s.len() <= 3,
    ensures
        lex_sort3(s).len() == s.len(),
        lex_sort3(s).to_multiset() =~= s.to_multiset(),
        forall|i: int, j: int| 0 <= i < j < s.len() ==> !lex_gt(#[trigger] lex_sort3(s)[i], #[trigger] lex_sort3(s)[j]),
{
    broadcast use vstd::seq_lib::group_to_multiset_ensures;

    let s1 = compare_exchange(s, 0);
    let s2 = compare_exchange(s1, 1);
    let s3 = compare_exchange(s2, 0);
    if s.len() >= 2 {
        lemma_lex_gt_asymmetric(s[0], s[1]);
        lemma_lex_gt_asymmetric(s1[1], s1[2]);
        lemma_lex_gt_asymmetric(s2[0], s2[1]);
    }
    if s.len() == 3 {
        lemma_lex_le_transitive(s1[0], s1[1], s1[2]);
        lemma_lex_le_transitive(s1[0], s2[1], s2[2]);
        lemma_lex_le_transitive(s3[0], s3[1], s3[2]);
        lemma_lex_le_transitive(s2[1], s2[0], s2[2]);
    }
    lemma_compare_exchange_multiset(s, 0);
    lemma_compare_exchange_multiset(s1, 1);
    lemma_compare_exchange_multiset(s2, 0);
}

proof fn lemma_compare_exchange_multiset(s: Seq<Seq<u8>>, i: int)
    ensures
        compare_exchange(s, i).to_multiset() =~= s.to_multiset(),
        compare_exchange(s, i).len() == s.len(),
{
    broadcast use vstd::seq_lib::group_to_multiset_ensures;

    if 0 <= i && i + 1 < s.len() && lex_gt(s[i], s[i + 1]) {
        let t = s.update(i, s[i + 1]);
        vstd::seq_lib::to_multiset_update(s, i, s[i + 1]);
        vstd::seq_lib::to_multiset_update(t, i + 1, s[i]);
        assert(t[i + 1] == s[i + 1]);
        assert(s.to_multiset().insert(s[i + 1]).remove(s[i]).insert(s[i]).remove(s[i + 1]) =~= s.to_multiset());
    }
}

/// The encoding of the sorted CIDs: each with its 8-byte length.
pub open spec fn cids_encoding(s: Seq<Seq<u8>>) -> Seq<u8>
    decreases s.len(),
{
    if s.len() == 0 {
        Seq::empty()
    } else {
        cids_encoding(s.drop_last()) + len64_prefixed(s.last())
    }
}

pub open spec fn views(v: Seq<Vec<u8>>) -> Seq<Seq<u8>> {
    v.map_values(|b: Vec<u8>| b@)
}

/// The bytes hashed into a period's MRV root: a domain tag, the PAI, the
/// period end, the count and the sorted CIDs, and the discrepancy flag.
pub open spec fn mrv_root_preimage(pai_id: Seq<u8>, period_end: u64, cids: Seq<Seq<u8>>, semantic_discrepancy: bool) -> Seq<u8> {
    lit("mrv_root_v1") + seq![0u8] + len64_prefixed(pai_id) + u64_be(period_end) + seq![cids.len() as u8]
        + cids_encoding(lex_sort3(cids)) + seq![if semantic_discrepancy { 1u8 } else { 0u8 }]
}

/// The positions of up to three CIDs in ascending lexicographic order.
fn sorted_positions(cids: &Vec<Vec<u8>>) -> (p: (usize, usize, usize))
    requires
        cids@.len() <= 3,
    ensures
        cids@.len() == 1 ==> lex_sort3(views(cids@)) =~= seq![views(cids@)[p.0 as int]] && p.0 < 1,
        cids@.len() == 2 ==> lex_sort3(views(cids@)) =~= seq![views(cids@)[p.0 as int], views(cids@)[p.1 as int]]
            && p.0 < 2 && p.1 < 2,
        cids@.len() == 3 ==> lex_sort3(views(cids@)) =~= seq![
            views(cids@)[p.0 as int],
            views(cids@)[p.1 as int],
            views(cids@)[p.2 as int],
        ] && p.0 < 3 && p.1 < 3 && p.2 < 3,
{
    let count = cids.len();
    let ghost s = views(cids@);
    let mut p0: usize = 0;
    let mut p1: usize = 1;
    let mut p2: usize = 2;
    let ghost s1 = compare_exchange(s, 0);
    if count >= 2 && managed_buffer_lex_gt(&cids[p0], &cids[p1]) {
        p0 = 1;
        p1 = 0;
    }
    let ghost s2 = compare_exchange(s1, 1);
    if count == 3 && managed_buffer_lex_gt(&cids[p1], &cids[p2]) {
        let t = p1;
        p1 = p2;
        p2 = t;
    }
    let ghost s3 = compare_exchange(s2, 0);
    if count == 3 && managed_buffer_lex_gt(&cids[p0], &cids[p1]) {
        let t = p0;
        p0 = p1;
        p1 = t;
    }
    proof {
        if count == 2 {
            lemma_lex_gt_asymmetric(s[0], s[1]);
        }
    }
    (p0, p1, p2)
}

proof fn lemma_cids_encoding_small(a: Seq<u8>, b: Seq<u8>, c: Seq<u8>)
    ensures
        cids_encoding(Seq::<Seq<u8>>::empty()) == Seq::<u8>::empty(),
        cids_encoding(seq![a]) =~= len64_prefixed(a),
        cids_encoding(seq![a, b]) =~= len64_prefixed(a) + len64_prefixed(b),
        cids_encoding(seq![a, b, c]) =~= len64_prefixed(a) + len64_prefixed(b) + len64_prefixed(c),
{
    reveal_with_fuel(cids_encoding, 4);
    assert(seq![a].drop_last() =~= Seq::<Seq<u8>>::empty());
    assert(seq![a, b].drop_last() =~= seq![a]);
    assert(seq![a, b, c].drop_last() =~= seq![a, b]);
    assert(Seq::<u8>::empty() + len64_prefixed(a) =~= len64_prefixed(a));
}

/// Computes the MRV root of a period from its (at most three) CIDs; more
/// than three is refused.
pub fn compute_mrv_root(pai_id: &[u8], period_end: u64, cids: &Vec<Vec<u8>>, semantic_discrepancy: bool) -> (r: Result<
    Vec<u8>,
    &'static str,
>)
    ensures
        cids@.len() > 3 ==> r == Err::<Vec<u8>, &'static str>("unexpected oracle source count"),
        cids@.len() <= 3 ==> (r matches Ok(root) && root@ == sha256_of(
            mrv_root_preimage(pai_id@, period_end, views(cids@), semantic_discrepancy),
        )),
{
    let count = cids.len();
    if count > MAX_ORACLE_SOURCES {
        return Err("unexpected oracle source count");
    }
    let ghost s = views(cids@);
    let (p0, p1, p2) = sorted_positions(cids);
    let mut preimage: Vec<u8> = copy_bytes("mrv_root_v1".as_bytes());
    preimage.push(0u8);
    push_len64_prefixed(&mut preimage, pai_id);
    push_u64_be(&mut preimage, period_end);
    preimage.push(count as u8);
    let ghost head = preimage@;
    if count >= 1 {
        push_len64_prefixed(&mut preimage, &cids[p0]);
    }
    if count >= 2 {
        push_len64_prefixed(&mut preimage, &cids[p1]);
    }
    if count == 3 {
        push_len64_prefixed(&mut preimage, &cids[p2]);
    }
    proof {
        let sorted = lex_sort3(s);
        if count == 0 {
            lemma_cids_encoding_small(Seq::empty(), Seq::empty(), Seq::empty());
            assert(sorted =~= Seq::<Seq<u8>>::empty());
        } else if count == 1 {
            lemma_cids_encoding_small(s[p0 as int], Seq::empty(), Seq::empty());
        } else if count == 2 {
            lemma_cids_encoding_small(s[p0 as int], s[p1 as int], Seq::empty());
        } else {
            lemma_cids_encoding_small(s[p0 as int], s[p1 as int], s[p2 as int]);
        }
        assert(preimage@ =~= head + cids_encoding(sorted));
    }
    preimage.push(if semantic_discrepancy { 1u8 } else { 0u8 });
    proof {
        assert(preimage@ =~= mrv_root_preimage(pai_id@, period_end, s, semantic_discrepancy));
    }
    Ok(sha256(&preimage))
}

// ── contract state ──────────────────────────────────────────────────────

/// Oracle reading stored for a single PAI, monitoring period, and source.
pub struct OracleReading {
    pub pai_id: Vec<u8>,
    pub period_start: u64,
    pub period_end: u64,
    pub source: u8,
    pub data_cid: Vec<u8>,
    pub source_timestamp: u64,
    pub device_did: Vec<u8>,
    pub device_signature: Vec<u8>,
}

/// Sealed monitoring-period record containing the computed MRV root.
pub struct SealedEvent {
    pub pai_id: Vec<u8>,
    pub period_end: u64,
    pub mrv_root: Vec<u8>,
    pub reading_count: u32,
    pub semantic_discrepancy: bool,
    pub sealed_at: u64,
}

/// A pending oracle rotation: the substitute, the last epoch in which it
/// may accept, and when the rotation was proposed.
pub struct OracleProposal {
    pub proposed_oracle: Vec<u8>,
    pub scope_end_epoch: u64,
    pub proposed_at: u64,
}

/// The storage of the oracle aggregator.
pub struct AggregatorState {
    pub gov: MrvGovernanceState,
    /// Readings by `key3(pai_id, u64_be(period_end), [source])`.
    pub oracle_readings: Table<OracleReading>,
    /// Sealed periods by `key2(pai_id, u64_be(period_end))`.
    pub sealed_events: Table<SealedEvent>,
    pub quorum: u32,
    pub iot_window: u64,
    pub satellite_window: u64,
    pub govt_lab_window: u64,
    pub divergence_threshold_bps: u64,
    /// Acknowledgement CIDs by `key2(pai_id, u64_be(period_end))`.
    pub discrepancy_acknowledged: Table<Vec<u8>>,
    pub authorized_oracles: Table<()>,
    /// Source grants by `key2(oracle, [source])`.
    pub oracle_source_authorizations: Table<()>,
    pub authorized_verifiers: Table<()>,
    pub registered_devices: Table<()>,
    pub device_public_keys: Table<Vec<u8>>,
    /// Pending rotations by the oracle to be replaced.
    pub pending_oracle_proposals: Table<OracleProposal>,
    pub governance_read_address: Option<Vec<u8>>,
    pub storage_version: u32,
}

pub open spec fn reading_key(pai_id: Seq<u8>, period_end: u64, source: u8) -> Seq<u8> {
    key3(pai_id, u64_be(period_end), seq![source])
}

pub open spec fn seal_key(pai_id: Seq<u8>, period_end: u64) -> Seq<u8> {
    key2(pai_id, u64_be(period_end))
}

pub open spec fn grant_key(oracle: Seq<u8>, source: u8) -> Seq<u8> {
    key2(oracle, seq![source])
}

pub open spec fn valid_source(source: u8) -> bool {
    source == SOURCE_IOT || source == SOURCE_SATELLITE || source == SOURCE_GOVT_LAB
}

pub open spec fn window_valid(w: u64) -> bool {
    MIN_COHERENCE_WINDOW <= w <= MAX_COHERENCE_WINDOW
}

pub open spec fn window_error(w: u64) -> Option<&'static str> {
    if w < MIN_COHERENCE_WINDOW {
        Some("coherence window below minimum")
    } else if w > MAX_COHERENCE_WINDOW {
        Some("coherence window exceeds maximum")
    } else {
        None
    }
}

pub open spec fn saturating_sub(a: u64, b: u64) -> u64 {
    if a >= b { (a - b) as u64 } else { 0 }
}

/// The bytes an IoT device signs for a reading: a domain tag, the
/// contract's address, and every field of the reading.
pub open spec fn reading_signature_payload(
    contract: Seq<u8>,
    pai_id: Seq<u8>,
    period_start: u64,
    period_end: u64,
    source: u8,
    data_cid: Seq<u8>,
    source_timestamp: u64,
    device_did: Seq<u8>,
) -> Seq<u8> {
    lit("mrv_oracle_reading_v2") + seq![0u8] + len64_prefixed(contract) + len64_prefixed(pai_id) + u64_be(period_start)
        + u64_be(period_end) + seq![source] + len64_prefixed(data_cid) + u64_be(source_timestamp) + len64_prefixed(
        device_did,
    )
}

impl AggregatorState {
    /// Tables are well formed; the quorum lies in `2..=3` and every window
    /// in the allowed range; the registered devices are exactly those with
    /// a public key, and every key is 32 bytes.
    pub open spec fn wf(&self) -> bool {
        &&& self.oracle_readings.wf()
        &&& self.sealed_events.wf()
        &&& self.discrepancy_acknowledged.wf()
        &&& self.authorized_oracles.wf()
        &&& self.oracle_source_authorizations.wf()
        &&& self.authorized_verifiers.wf()
        &&& self.registered_devices.wf()
        &&& self.device_public_keys.wf()
        &&& self.pending_oracle_proposals.wf()
        &&& QUORUM_MIN <= self.quorum <= 3
        &&& window_valid(self.iot_window)
        &&& window_valid(self.satellite_window)
        &&& window_valid(self.govt_lab_window)
        &&& self.registered_devices@.dom() == self.device_public_keys@.dom()
        &&& forall|d: Seq<u8>| #[trigger] self.device_public_keys@.contains_key(d) ==> self.device_public_keys@[d]@.len() == 32
    }

    pub open spec fn coherence_window(&self, source: u8) -> u64 {
        if source == SOURCE_IOT {
            self.iot_window
        } else if source == SOURCE_SATELLITE {
            self.satellite_window
        } else if source == SOURCE_GOVT_LAB {
            self.govt_lab_window
        } else {
            0
        }
    }

    pub open spec fn has_any_source(&self, oracle: Seq<u8>) -> bool {
        self.oracle_source_authorizations@.contains_key(grant_key(oracle, SOURCE_IOT))
            || self.oracle_source_authorizations@.contains_key(grant_key(oracle, SOURCE_SATELLITE))
            || self.oracle_source_authorizations@.contains_key(grant_key(oracle, SOURCE_GOVT_LAB))
    }

    /// An authorized oracle may report a source when it holds that grant;
    /// an oracle with no grant rows at all keeps every source.
    pub open spec fn source_authorized(&self, oracle: Seq<u8>, source: u8) -> bool {
        self.authorized_oracles@.contains_key(oracle) && (!self.has_any_source(oracle)
            || self.oracle_source_authorizations@.contains_key(grant_key(oracle, source)))
    }

    pub open spec fn paused_error(&self, probe: PauseProbe) -> Option<&'static str> {
        not_paused_error(self.governance_read_address is Some, probe)
    }

    pub open spec fn auth_error(&self, env: &BlockchainEnv) -> Option<&'static str> {
        self.gov.governance_or_owner_error(env.caller@, env.owner@)
    }

    /// The owner or the active governance, then the pause check.
    pub open spec fn admin_error(&self, env: &BlockchainEnv, probe: PauseProbe) -> Option<&'static str> {
        if self.auth_error(env) is Some {
            self.auth_error(env)
        } else {
            self.paused_error(probe)
        }
    }

    /// Everything but the readings, seals and acknowledgements is unchanged.
    pub open spec fn same_registries(&self, o: &Self) -> bool {
        &&& self.gov == o.gov
        &&& self.quorum == o.quorum
        &&& self.iot_window == o.iot_window
        &&& self.satellite_window == o.satellite_window
        &&& self.govt_lab_window == o.govt_lab_window
        &&& self.divergence_threshold_bps == o.divergence_threshold_bps
        &&& self.authorized_oracles == o.authorized_oracles
        &&& self.oracle_source_authorizations == o.oracle_source_authorizations
        &&& self.authorized_verifiers == o.authorized_verifiers
        &&& self.registered_devices == o.registered_devices
        &&& self.device_public_keys == o.device_public_keys
        &&& self.pending_oracle_proposals == o.pending_oracle_proposals
        &&& self.governance_read_address == o.governance_read_address
        &&& self.storage_version == o.storage_version
    }

    /// Whether the reading of `source` exists and lies in its coherence window.
    pub open spec fn in_window(&self, pai_id: Seq<u8>, period_end: u64, source: u8) -> bool {
        let k = reading_key(pai_id, period_end, source);
        self.oracle_readings@.contains_key(k) && self.oracle_readings@[k].source_timestamp >= saturating_sub(
            period_end,
            self.coherence_window(source),
        )
    }

    pub open spec fn present(&self, pai_id: Seq<u8>, period_end: u64, source: u8) -> bool {
        self.oracle_readings@.contains_key(reading_key(pai_id, period_end, source))
    }

    pub open spec fn reading_cid(&self, pai_id: Seq<u8>, period_end: u64, source: u8) -> Seq<u8> {
        self.oracle_readings@[reading_key(pai_id, period_end, source)].data_cid@
    }

    /// The CIDs of the sources selected by `pick`, in source order.
    pub open spec fn cids_where(&self, pai_id: Seq<u8>, period_end: u64, pick: spec_fn(u8) -> bool) -> Seq<Seq<u8>> {
        (if pick(SOURCE_IOT) { seq![self.reading_cid(pai_id, period_end, SOURCE_IOT)] } else { Seq::empty() })
            + (if pick(SOURCE_SATELLITE) { seq![self.reading_cid(pai_id, period_end, SOURCE_SATELLITE)] } else { Seq::empty() })
            + (if pick(SOURCE_GOVT_LAB) { seq![self.reading_cid(pai_id, period_end, SOURCE_GOVT_LAB)] } else { Seq::empty() })
    }

    /// The CIDs that count towards a regular seal: readings inside their window.
    pub open spec fn windowed_cids(&self, pai_id: Seq<u8>, period_end: u64) -> Seq<Seq<u8>> {
        self.cids_where(pai_id, period_end, |s: u8| self.in_window(pai_id, period_end, s))
    }

    /// The CIDs that count towards a timeout seal: every stored reading.
    pub open spec fn present_cids(&self, pai_id: Seq<u8>, period_end: u64) -> Seq<Seq<u8>> {
        self.cids_where(pai_id, period_end, |s: u8| self.present(pai_id, period_end, s))
    }

    /// The discrepancy flag of a regular seal.
    pub open spec fn seal_discrepancy(&self, pai_id: Seq<u8>, period_end: u64) -> bool {
        self.in_window(pai_id, period_end, SOURCE_IOT) && self.in_window(pai_id, period_end, SOURCE_SATELLITE)
            && diverges(
            self.reading_cid(pai_id, period_end, SOURCE_IOT),
            self.reading_cid(pai_id, period_end, SOURCE_SATELLITE),
            self.divergence_threshold_bps,
        )
    }

    /// Why a reading is refused, if it is; `signature_ok` is the outcome of
    /// the Ed25519 check of an IoT reading.
    pub open spec fn reading_error(
        &self,
        env: &BlockchainEnv,
        probe: PauseProbe,
        pai_id: Seq<u8>,
        period_start: u64,
        period_end: u64,
        source: u8,
        data_cid: Seq<u8>,
        source_timestamp: u64,
        device_did: Seq<u8>,
        device_signature: Seq<u8>,
        signature_ok: bool,
    ) -> Option<&'static str> {
        let caller = env.caller@;
        if self.paused_error(probe) is Some {
            self.paused_error(probe)
        } else if !self.authorized_oracles@.contains_key(caller) {
            Some("ORACLE_NOT_AUTHORIZED: caller must be a registered authorized oracle")
        } else if pai_id.len() == 0 {
            Some("empty pai_id")
        } else if period_start == 0 {
            Some("invalid period_start")
        } else if period_end <= period_start {
            Some("period_end must be after period_start")
        } else if !valid_source(source) {
            Some("source must be 0 (IoT), 1 (Satellite), or 2 (GovtLab)")
        } else if !self.source_authorized(caller, source) {
            Some("ORACLE_SOURCE_NOT_AUTHORIZED: caller is not authorized for this source")
        } else if data_cid.len() == 0 {
            Some("empty data_cid")
        } else if source_timestamp == 0 {
            Some("invalid source_timestamp")
        } else if source_timestamp > env.block_timestamp {
            Some("FUTURE_TIMESTAMP: source_timestamp cannot be in the future")
        } else if source_timestamp < period_start {
            Some("reading predates period")
        } else if !(device_did == zero_address() || self.registered_devices@.contains_key(device_did)) {
            Some("DEVICE_NOT_REGISTERED: device_did must be registered via registerDevice")
        } else if source == SOURCE_IOT && device_signature.len() == 0 {
            Some("INVALID_DEVICE_SIGNATURE: IoT readings require non-empty device_signature")
        } else if source == SOURCE_IOT && device_signature.len() != 64 {
            Some("INVALID_DEVICE_SIGNATURE: signature must be exactly 64 bytes (ed25519)")
        } else if source == SOURCE_IOT && !self.device_public_keys@.contains_key(device_did) {
            Some("DEVICE_PUBLIC_KEY_NOT_REGISTERED: device_did must have an Ed25519 public key")
        } else if source == SOURCE_IOT && !signature_ok {
            Some("ed25519 verify error")
        } else if self.sealed_events@.contains_key(seal_key(pai_id, period_end)) {
            Some("EVENT_ALREADY_SEALED: period already sealed for this PAI")
        } else if source_timestamp < saturating_sub(period_end, self.coherence_window(source)) {
            Some("reading outside coherence window")
        } else if self.oracle_readings@.contains_key(reading_key(pai_id, period_end, source)) {
            Some("READING_ALREADY_SUBMITTED: reading already exists for this source/period")
        } else {
            None
        }
    }

    pub open spec fn try_seal_error(&self, env: &BlockchainEnv, probe: PauseProbe, pai_id: Seq<u8>, period_end: u64) -> Option<&'static str> {
        let caller = env.caller@;
        if self.paused_error(probe) is Some {
            self.paused_error(probe)
        } else if !(caller == env.owner@ || self.authorized_oracles@.contains_key(caller)
            || self.authorized_verifiers@.contains_key(caller)) {
            Some("only owner, authorized oracle, or authorized verifier can seal")
        } else if pai_id.len() == 0 {
            Some("empty pai_id")
        } else if env.block_timestamp <= period_end {
            Some("PERIOD_NOT_ENDED: cannot seal before monitoring period closes")
        } else if self.sealed_events@.contains_key(seal_key(pai_id, period_end)) {
            Some("EVENT_ALREADY_SEALED: period already sealed")
        } else if self.windowed_cids(pai_id, period_end).len() < self.quorum {
            Some("insufficient oracle readings for quorum")
        } else if self.seal_discrepancy(pai_id, period_end) && !self.discrepancy_acknowledged@.contains_key(
            seal_key(pai_id, period_end),
        ) {
            Some(
                "DISCREPANCY_NOT_ACKNOWLEDGED: IoT-Satellite divergence detected — call acknowledgeDiscrepancy before sealing",
            )
        } else {
            None
        }
    }

    pub open spec fn force_seal_error(&self, env: &BlockchainEnv, probe: PauseProbe, pai_id: Seq<u8>, period_end: u64) -> Option<&'static str> {
        if self.admin_error(env, probe) is Some {
            self.admin_error(env, probe)
        } else if pai_id.len() == 0 {
            Some("empty pai_id")
        } else if env.block_timestamp <= period_end {
            Some("period has not ended yet")
        } else if period_end + self.govt_lab_window > u64::MAX {
            Some("timeout window overflow")
        } else if env.block_timestamp < period_end + self.govt_lab_window {
            Some("timeout window has not elapsed — wait for coherence window to expire")
        } else if self.sealed_events@.contains_key(seal_key(pai_id, period_end)) {
            Some("EVENT_ALREADY_SEALED")
        } else if self.present_cids(pai_id, period_end).len() < self.quorum {
            Some("insufficient oracle readings for configured quorum")
        } else if self.timeout_discrepancy(pai_id, period_end) {
            Some(
                "TIMEOUT_FORCE_SEAL_REQUIRES_NON_DISCREPANT_IOT_SATELLITE: cannot force-seal missing or divergent IoT/Satellite readings",
            )
        } else {
            None
        }
    }

    pub open spec fn acknowledge_error(
        &self,
        env: &BlockchainEnv,
        probe: PauseProbe,
        pai_id: Seq<u8>,
        period_end: u64,
        acknowledgement_cid: Seq<u8>,
    ) -> Option<&'static str> {
        if self.paused_error(probe) is Some {
            self.paused_error(probe)
        } else if !(env.caller@ == env.owner@ || self.authorized_verifiers@.contains_key(env.caller@)) {
            Some("only owner or authorized verifier (VVB) can acknowledge discrepancy")
        } else if pai_id.len() == 0 {
            Some("empty pai_id")
        } else if acknowledgement_cid.len() == 0 {
            Some("empty acknowledgement_cid")
        } else if !(self.present(pai_id, period_end, SOURCE_IOT) && self.present(pai_id, period_end, SOURCE_SATELLITE)) {
            Some(
                "CANNOT_ACKNOWLEDGE: both IoT and Satellite readings must exist before acknowledging discrepancy",
            )
        } else {
            None
        }
    }

    pub open spec fn set_quorum_error(&self, env: &BlockchainEnv, probe: PauseProbe, quorum: u32) -> Option<&'static str> {
        if self.admin_error(env, probe) is Some {
            self.admin_error(env, probe)
        } else if quorum < 2 {
            Some("quorum must be >= 2 (QUORUM_MIN)")
        } else if quorum > 3 {
            Some("quorum exceeds available oracle source count")
        } else if quorum < self.quorum {
            Some("QUORUM_DECREASE_DISABLED: quorum changes must not reduce the current threshold")
        } else {
            None
        }
    }

    pub open spec fn propose_oracle_update_error(
        &self,
        env: &BlockchainEnv,
        probe: PauseProbe,
        current_oracle: Seq<u8>,
        proposed_oracle: Seq<u8>,
        scope_end_epoch: u64,
    ) -> Option<&'static str> {
        if self.admin_error(env, probe) is Some {
            self.admin_error(env, probe)
        } else if current_oracle == zero_address() {
            Some("current_oracle must not be zero")
        } else if proposed_oracle == zero_address() {
            Some("proposed_oracle must not be zero")
        } else if !self.authorized_oracles@.contains_key(current_oracle) {
            Some("current_oracle not in authorized set")
        } else if scope_end_epoch <= env.block_epoch {
            Some("scope_end_epoch must be in the future")
        } else {
            None
        }
    }

    pub open spec fn accept_oracle_update_error(&self, env: &BlockchainEnv, probe: PauseProbe, current_oracle: Seq<u8>) -> Option<&'static str> {
        let p = self.pending_oracle_proposals@[current_oracle];
        if self.paused_error(probe) is Some {
            self.paused_error(probe)
        } else if !self.pending_oracle_proposals@.contains_key(current_oracle) {
            Some("no pending proposal for this oracle")
        } else if env.caller@ != p.proposed_oracle@ {
            Some("only the proposed oracle can accept")
        } else if env.block_epoch > p.scope_end_epoch {
            Some("proposal scope has expired")
        } else {
            None
        }
    }

    pub open spec fn cancel_expired_proposal_error(&self, env: &BlockchainEnv, probe: PauseProbe, current_oracle: Seq<u8>) -> Option<&'static str> {
        if self.paused_error(probe) is Some {
            self.paused_error(probe)
        } else if !self.pending_oracle_proposals@.contains_key(current_oracle) {
            Some("no pending proposal for this oracle")
        } else if env.block_epoch <= self.pending_oracle_proposals@[current_oracle].scope_end_epoch {
            Some("proposal has not expired yet")
        } else {
            None
        }
    }

    /// What submitting a reading does, given the outcome of its signature
    /// check: refused with the first broken rule, or stored under its key.
    pub open spec fn reading_outcome(
        &self,
        env: &BlockchainEnv,
        probe: PauseProbe,
        pai_id: Vec<u8>,
        period_start: u64,
        period_end: u64,
        source: u8,
        data_cid: Vec<u8>,
        source_timestamp: u64,
        device_did: Vec<u8>,
        device_signature: Vec<u8>,
        signature_ok: bool,
        r: Result<AggregatorEvent, &'static str>,
        after: Self,
    ) -> bool {
        match self.reading_error(env, probe, pai_id@, period_start, period_end, source, data_cid@, source_timestamp,
            device_did@, device_signature@, signature_ok) {
            Some(e) => r == Err::<AggregatorEvent, &'static str>(e) && after == *self,
            None => {
                &&& r matches Ok(AggregatorEvent::OracleReadingSubmitted { pai_id: p, data_cid: c, device_did: d })
                    && p@ == pai_id@ && c@ == data_cid@ && d@ == device_did@
                &&& after.oracle_readings@ == self.oracle_readings@.insert(
                    reading_key(pai_id@, period_end, source),
                    OracleReading {
                        pai_id,
                        period_start,
                        period_end,
                        source,
                        data_cid,
                        source_timestamp,
                        device_did,
                        device_signature,
                    },
                )
                &&& after == (AggregatorState { oracle_readings: after.oracle_readings, ..*self })
            },
        }
    }

    /// `after` is this state with the period sealed over `cids`: the sealed
    /// record carries the MRV root, the count, the flag and the time; the
    /// period's readings and acknowledgement are gone.
    pub open spec fn sealed_after(
        &self,
        after: Self,
        pai_id: Seq<u8>,
        period_end: u64,
        cids: Seq<Seq<u8>>,
        semantic_discrepancy: bool,
        now: u64,
    ) -> bool {
        let k = seal_key(pai_id, period_end);
        let ev = after.sealed_events@[k];
        &&& after.sealed_events@ == self.sealed_events@.insert(k, ev)
        &&& ev.pai_id@ == pai_id
        &&& ev.period_end == period_end
        &&& ev.mrv_root@ == sha256_of(mrv_root_preimage(pai_id, period_end, cids, semantic_discrepancy))
        &&& ev.reading_count == cids.len()
        &&& ev.semantic_discrepancy == semantic_discrepancy
        &&& ev.sealed_at == now
        &&& after.oracle_readings@ == self.oracle_readings@.remove(reading_key(pai_id, period_end, SOURCE_IOT)).remove(
            reading_key(pai_id, period_end, SOURCE_SATELLITE),
        ).remove(reading_key(pai_id, period_end, SOURCE_GOVT_LAB))
        &&& after.discrepancy_acknowledged@ == self.discrepancy_acknowledged@.remove(k)
        &&& after.same_registries(self)
    }

    /// A timeout seal counts a missing IoT or satellite reading as a discrepancy.
    pub open spec fn timeout_discrepancy(&self, pai_id: Seq<u8>, period_end: u64) -> bool {
        !(self.present(pai_id, period_end, SOURCE_IOT) && self.present(pai_id, period_end, SOURCE_SATELLITE)) || diverges(
            self.reading_cid(pai_id, period_end, SOURCE_IOT),
            self.reading_cid(pai_id, period_end, SOURCE_SATELLITE),
            self.divergence_threshold_bps,
        )
    }
}

// ── source grants ───────────────────────────────────────────────────────

pub open spec fn has_any_grant(grants: Map<Seq<u8>, ()>, oracle: Seq<u8>) -> bool {
    grants.contains_key(grant_key(oracle, SOURCE_IOT)) || grants.contains_key(grant_key(oracle, SOURCE_SATELLITE))
        || grants.contains_key(grant_key(oracle, SOURCE_GOVT_LAB))
}

pub open spec fn grant_all(grants: Map<Seq<u8>, ()>, oracle: Seq<u8>) -> Map<Seq<u8>, ()> {
    grants.insert(grant_key(oracle, SOURCE_IOT), ()).insert(grant_key(oracle, SOURCE_SATELLITE), ()).insert(
        grant_key(oracle, SOURCE_GOVT_LAB),
        (),
    )
}

pub open spec fn revoke_all(grants: Map<Seq<u8>, ()>, oracle: Seq<u8>) -> Map<Seq<u8>, ()> {
    grants.remove(grant_key(oracle, SOURCE_IOT)).remove(grant_key(oracle, SOURCE_SATELLITE)).remove(
        grant_key(oracle, SOURCE_GOVT_LAB),
    )
}

/// One source of a grant copy: `to` gains `source` when `from` may report it
/// under the grants as they stand at that step.
pub open spec fn copy_grant_step(
    oracles: Map<Seq<u8>, ()>,
    grants: Map<Seq<u8>, ()>,
    from: Seq<u8>,
    to: Seq<u8>,
    source: u8,
) -> Map<Seq<u8>, ()> {
    if oracles.contains_key(from) && (!has_any_grant(grants, from) || grants.contains_key(grant_key(from, source))) {
        grants.insert(grant_key(to, source), ())
    } else {
        grants
    }
}

/// The grants after copying `from`'s sources to `to`, source by source; an
/// oracle without grant rows copies nothing.
pub open spec fn copy_grants(oracles: Map<Seq<u8>, ()>, grants: Map<Seq<u8>, ()>, from: Seq<u8>, to: Seq<u8>) -> Map<
    Seq<u8>,
    (),
> {
    if !has_any_grant(grants, from) {
        grants
    } else {
        let g0 = copy_grant_step(oracles, grants, from, to, SOURCE_IOT);
        let g1 = copy_grant_step(oracles, g0, from, to, SOURCE_SATELLITE);
        copy_grant_step(oracles, g1, from, to, SOURCE_GOVT_LAB)
    }
}

impl AggregatorState {
    fn get_coherence_window(&self, source: u8) -> (w: u64)
        ensures
            w == self.coherence_window(source),
    {
        if source == SOURCE_IOT {
            self.iot_window
        } else if source == SOURCE_SATELLITE {
            self.satellite_window
        } else if source == SOURCE_GOVT_LAB {
            self.govt_lab_window
        } else {
            0
        }
    }

    fn oracle_has_any_source_authorization(&self, oracle: &[u8]) -> (b: bool)
        requires
            self.wf(),
        ensures
            b == has_any_grant(self.oracle_source_authorizations@, oracle@),
    {
        let k0 = make_key2(oracle, &source_key(SOURCE_IOT));
        let k1 = make_key2(oracle, &source_key(SOURCE_SATELLITE));
        let k2 = make_key2(oracle, &source_key(SOURCE_GOVT_LAB));
        self.oracle_source_authorizations.contains_key(&k0) || self.oracle_source_authorizations.contains_key(&k1)
            || self.oracle_source_authorizations.contains_key(&k2)
    }

    fn is_oracle_source_authorized_internal(&self, oracle: &[u8], source: u8) -> (b: bool)
        requires
            self.wf(),
        ensures
            b == self.source_authorized(oracle@, source),
    {
        let k = make_key2(oracle, &source_key(source));
        self.authorized_oracles.contains_key(oracle) && (!self.oracle_has_any_source_authorization(oracle)
            || self.oracle_source_authorizations.contains_key(&k))
    }

    fn grant_all_oracle_sources(&mut self, oracle: &[u8])
        requires
            old(self).wf(),
        ensures
            final(self).wf(),
            final(self).oracle_source_authorizations@ == grant_all(old(self).oracle_source_authorizations@, oracle@),
            *final(self) == (AggregatorState {
                oracle_source_authorizations: final(self).oracle_source_authorizations,
                ..*old(self)
            }),
    {
        self.oracle_source_authorizations.insert(make_key2(oracle, &source_key(SOURCE_IOT)), ());
        self.oracle_source_authorizations.insert(make_key2(oracle, &source_key(SOURCE_SATELLITE)), ());
        self.oracle_source_authorizations.insert(make_key2(oracle, &source_key(SOURCE_GOVT_LAB)), ());
    }

    fn revoke_all_oracle_sources(&mut self, oracle: &[u8])
        requires
            old(self).wf(),
        ensures
            final(self).wf(),
            final(self).oracle_source_authorizations@ == revoke_all(old(self).oracle_source_authorizations@, oracle@),
            *final(self) == (AggregatorState {
                oracle_source_authorizations: final(self).oracle_source_authorizations,
                ..*old(self)
            }),
    {
        self.oracle_source_authorizations.remove(&make_key2(oracle, &source_key(SOURCE_IOT)));
        self.oracle_source_authorizations.remove(&make_key2(oracle, &source_key(SOURCE_SATELLITE)));
        self.oracle_source_authorizations.remove(&make_key2(oracle, &source_key(SOURCE_GOVT_LAB)));
    }

    fn copy_one_source(&mut self, from: &[u8], to: &[u8], source: u8)
        requires
            old(self).wf(),
        ensures
            final(self).wf(),
            final(self).oracle_source_authorizations@ == copy_grant_step(
                old(self).authorized_oracles@,
                old(self).oracle_source_authorizations@,
                from@,
                to@,
                source,
            ),
            *final(self) == (AggregatorState {
                oracle_source_authorizations: final(self).oracle_source_authorizations,
                ..*old(self)
            }),
    {
        if self.is_oracle_source_authorized_internal(from, source) {
            self.oracle_source_authorizations.insert(make_key2(to, &source_key(source)), ());
        }
    }

    fn copy_oracle_sources(&mut self, from: &[u8], to: &[u8])
        requires
            old(self).wf(),
        ensures
            final(self).wf(),
            final(self).oracle_source_authorizations@ == copy_grants(
                old(self).authorized_oracles@,
                old(self).oracle_source_authorizations@,
                from@,
                to@,
            ),
            *final(self) == (AggregatorState {
                oracle_source_authorizations: final(self).oracle_source_authorizations,
                ..*old(self)
            }),
    {
        if !self.oracle_has_any_source_authorization(from) {
            return;
        }
        self.copy_one_source(from, to, SOURCE_IOT);
        self.copy_one_source(from, to, SOURCE_SATELLITE);
        self.copy_one_source(from, to, SOURCE_GOVT_LAB);
    }

    /// The signed bytes of a reading, built as the devices build them.
    fn build_oracle_reading_signature_payload(
        contract: &[u8],
        pai_id: &[u8],
        period_start: u64,
        period_end: u64,
        source: u8,
        data_cid: &[u8],
        source_timestamp: u64,
        device_did: &[u8],
    ) -> (r: Vec<u8>)
        ensures
            r@ == reading_signature_payload(contract@, pai_id@, period_start, period_end, source, data_cid@,
                source_timestamp, device_did@),
    {
        let mut payload = copy_bytes("mrv_oracle_reading_v2".as_bytes());
        payload.push(0u8);
        push_len64_prefixed(&mut payload, contract);
        push_len64_prefixed(&mut payload, pai_id);
        push_u64_be(&mut payload, period_start);
        push_u64_be(&mut payload, period_end);
        payload.push(source);
        push_len64_prefixed(&mut payload, data_cid);
        push_u64_be(&mut payload, source_timestamp);
        push_len64_prefixed(&mut payload, device_did);
        assert(payload@ =~= reading_signature_payload(contract@, pai_id@, period_start, period_end, source, data_cid@,
            source_timestamp, device_did@));
        payload
    }

    /// The CID of `source`'s reading for the period, when it exists (and,
    /// if `windowed`, lies in its coherence window).
    fn reading_cid_if(&self, pai_id: &[u8], pk: &[u8], period_end: u64, source: u8, windowed: bool) -> (r: Option<Vec<u8>>)
        requires
            self.wf(),
            pk@ == u64_be(period_end),
        ensures
            match r {
                Some(c) => (if windowed { self.in_window(pai_id@, period_end, source) } else { self.present(pai_id@, period_end, source) })
                    && c@ == self.reading_cid(pai_id@, period_end, source),
                None => !(if windowed { self.in_window(pai_id@, period_end, source) } else { self.present(pai_id@, period_end, source) }),
            },
    {
        let rk = make_key3(pai_id, pk, &source_key(source));
        match self.oracle_readings.get(&rk) {
            Some(reading) => {
                if windowed {
                    let window = self.get_coherence_window(source);
                    let floor = if period_end >= window { period_end - window } else { 0 };
                    if reading.source_timestamp >= floor {
                        Some(copy_bytes(&reading.data_cid))
                    } else {
                        None
                    }
                } else {
                    Some(copy_bytes(&reading.data_cid))
                }
            },
            None => None,
        }
    }

    /// The CIDs counted for a seal, in source order, with the IoT and
    /// satellite CIDs apart.
    fn collect_cids(&self, pai_id: &[u8], pk: &[u8], period_end: u64, windowed: bool) -> (r: (
        Vec<Vec<u8>>,
        Option<Vec<u8>>,
        Option<Vec<u8>>,
    ))
        requires
            self.wf(),
            pk@ == u64_be(period_end),
        ensures
            views(r.0@) == (if windowed { self.windowed_cids(pai_id@, period_end) } else { self.present_cids(pai_id@, period_end) }),
            r.0@.len() <= 3,
            match r.1 {
                Some(c) => (if windowed { self.in_window(pai_id@, period_end, SOURCE_IOT) } else { self.present(pai_id@, period_end, SOURCE_IOT) })
                    && c@ == self.reading_cid(pai_id@, period_end, SOURCE_IOT),
                None => !(if windowed { self.in_window(pai_id@, period_end, SOURCE_IOT) } else { self.present(pai_id@, period_end, SOURCE_IOT) }),
            },
            match r.2 {
                Some(c) => (if windowed { self.in_window(pai_id@, period_end, SOURCE_SATELLITE) } else { self.present(pai_id@, period_end, SOURCE_SATELLITE) })
                    && c@ == self.reading_cid(pai_id@, period_end, SOURCE_SATELLITE),
                None => !(if windowed { self.in_window(pai_id@, period_end, SOURCE_SATELLITE) } else { self.present(pai_id@, period_end, SOURCE_SATELLITE) }),
            },
    {
        let iot = self.reading_cid_if(pai_id, pk, period_end, SOURCE_IOT, windowed);
        let sat = self.reading_cid_if(pai_id, pk, period_end, SOURCE_SATELLITE, windowed);
        let lab = self.reading_cid_if(pai_id, pk, period_end, SOURCE_GOVT_LAB, windowed);
        let mut cids: Vec<Vec<u8>> = Vec::new();
        let iot_copy = match &iot {
            Some(c) => Some(copy_bytes(c)),
            None => None,
        };
        let sat_copy = match &sat {
            Some(c) => Some(copy_bytes(c)),
            None => None,
        };
        let ghost pick = if windowed {
            |s: u8| self.in_window(pai_id@, period_end, s)
        } else {
            |s: u8| self.present(pai_id@, period_end, s)
        };
        let ghost e0: Seq<Seq<u8>> = if pick(SOURCE_IOT) { seq![self.reading_cid(pai_id@, period_end, SOURCE_IOT)] } else { Seq::empty() };
        let ghost e1: Seq<Seq<u8>> = if pick(SOURCE_SATELLITE) { seq![self.reading_cid(pai_id@, period_end, SOURCE_SATELLITE)] } else { Seq::empty() };
        let ghost e2: Seq<Seq<u8>> = if pick(SOURCE_GOVT_LAB) { seq![self.reading_cid(pai_id@, period_end, SOURCE_GOVT_LAB)] } else { Seq::empty() };
        if let Some(c) = iot {
            cids.push(c);
        }
        assert(views(cids@) =~= e0);
        if let Some(c) = sat {
            cids.push(c);
        }
        assert(views(cids@) =~= e0 + e1);
        if let Some(c) = lab {
            cids.push(c);
        }
        assert(views(cids@) =~= e0 + e1 + e2);
        proof {
            if windowed {
                assert(self.windowed_cids(pai_id@, period_end) == e0 + e1 + e2);
            } else {
                assert(self.present_cids(pai_id@, period_end) == e0 + e1 + e2);
            }
        }
        (cids, iot_copy, sat_copy)
    }
}

/// Checks a coherence window against the allowed range.
pub fn require_valid_coherence_window(window: u64) -> (r: Result<(), &'static str>)
    ensures
        match window_error(window) {
            Some(e) => r == Err::<(), &'static str>(e),
            None => r is Ok,
        },
{
    if window < MIN_COHERENCE_WINDOW {
        return Err("coherence window below minimum");
    }
    if window > MAX_COHERENCE_WINDOW {
        return Err("coherence window exceeds maximum");
    }
    Ok(())
}

/// The events of the aggregator.
#[derive(Debug, PartialEq, Eq)]
pub enum AggregatorEvent {
    /// `oracleReadingSubmitted`.
    OracleReadingSubmitted { pai_id: Vec<u8>, data_cid: Vec<u8>, device_did: Vec<u8> },
    /// `eventSealed`: a quorum seal and its MRV root.
    EventSealed { pai_id: Vec<u8>, mrv_root: Vec<u8> },
    /// `discrepancyAcknowledged`.
    DiscrepancyAcknowledged { pai_id: Vec<u8> },
    /// `forceSealed`: a timeout seal and its MRV root.
    ForceSealed { pai_id: Vec<u8>, mrv_root: Vec<u8> },
    /// `oracleUpdateProposed`.
    OracleUpdateProposed { current_oracle: Vec<u8>, proposed_oracle: Vec<u8>, scope_end_epoch: u64 },
    /// `oracleUpdateAccepted`.
    OracleUpdateAccepted { replaced_oracle: Vec<u8>, new_oracle: Vec<u8> },
}

/// The endpoints of the oracle aggregator.
pub trait MrvAggregator: Sized {
    spec fn valid(&self) -> bool;

    fn init(
        env: &BlockchainEnv,
        quorum: u32,
        iot_window: u64,
        satellite_window: u64,
        govt_lab_window: u64,
        divergence_threshold_bps: u64,
    ) -> (r: Result<Self, &'static str>)
        ensures
            r matches Ok(s) ==> s.valid();

    fn set_governance_read_address(&mut self, env: &BlockchainEnv, addr: Vec<u8>) -> (r: Result<(), &'static str>)
        requires old(self).valid(), ensures final(self).valid();

    fn clear_governance_read_address(&mut self, env: &BlockchainEnv) -> (r: Result<(), &'static str>)
        requires old(self).valid(), ensures final(self).valid();

    fn set_quorum(&mut self, env: &BlockchainEnv, probe: &PauseProbe, quorum: u32) -> (r: Result<(), &'static str>)
        requires old(self).valid(), ensures final(self).valid();

    fn set_coherence_windows(
        &mut self,
        env: &BlockchainEnv,
        probe: &PauseProbe,
        iot_window: u64,
        satellite_window: u64,
        govt_lab_window: u64,
    ) -> (r: Result<(), &'static str>)
        requires old(self).valid(), ensures final(self).valid();

    fn register_oracle(&mut self, env: &BlockchainEnv, probe: &PauseProbe, oracle: Vec<u8>) -> (r: Result<(), &'static str>)
        requires old(self).valid(), ensures final(self).valid();

    fn deregister_oracle(&mut self, env: &BlockchainEnv, probe: &PauseProbe, oracle: Vec<u8>) -> (r: Result<(), &'static str>)
        requires old(self).valid(), ensures final(self).valid();

    fn register_oracle_for_source(&mut self, env: &BlockchainEnv, probe: &PauseProbe, oracle: Vec<u8>, source: u8) -> (r: Result<(), &'static str>)
        requires old(self).valid(), ensures final(self).valid();

    fn revoke_oracle_source(&mut self, env: &BlockchainEnv, probe: &PauseProbe, oracle: Vec<u8>, source: u8) -> (r: Result<(), &'static str>)
        requires old(self).valid(), ensures final(self).valid();

    fn register_verifier(&mut self, env: &BlockchainEnv, probe: &PauseProbe, verifier: Vec<u8>) -> (r: Result<(), &'static str>)
        requires old(self).valid(), ensures final(self).valid();

    fn deregister_verifier(&mut self, env: &BlockchainEnv, probe: &PauseProbe, verifier: Vec<u8>) -> (r: Result<(), &'static str>)
        requires old(self).valid(), ensures final(self).valid();

    fn register_device(&mut self, env: &BlockchainEnv, probe: &PauseProbe, device_did: Vec<u8>) -> (r: Result<(), &'static str>)
        requires old(self).valid(), ensures final(self).valid();

    fn register_device_public_key(
        &mut self,
        env: &BlockchainEnv,
        probe: &PauseProbe,
        device_did: Vec<u8>,
        ed25519_public_key: Vec<u8>,
    ) -> (r: Result<(), &'static str>)
        requires old(self).valid(), ensures final(self).valid();

    fn deregister_device(&mut self, env: &BlockchainEnv, probe: &PauseProbe, device_did: Vec<u8>) -> (r: Result<(), &'static str>)
        requires old(self).valid(), ensures final(self).valid();

    fn submit_oracle_reading(
        &mut self,
        env: &BlockchainEnv,
        probe: &PauseProbe,
        pai_id: Vec<u8>,
        period_start: u64,
        period_end: u64,
        source: u8,
        data_cid: Vec<u8>,
        source_timestamp: u64,
        device_did: Vec<u8>,
        device_signature: Vec<u8>,
    ) -> (r: Result<AggregatorEvent, &'static str>)
        requires old(self).valid(), ensures final(self).valid();

    fn try_seal(&mut self, env: &BlockchainEnv, probe: &PauseProbe, pai_id: Vec<u8>, period_end: u64) -> (r: Result<AggregatorEvent, &'static str>)
        requires old(self).valid(), ensures final(self).valid();

    fn force_seal_after_timeout(&mut self, env: &BlockchainEnv, probe: &PauseProbe, pai_id: Vec<u8>, period_end: u64) -> (r: Result<AggregatorEvent, &'static str>)
        requires old(self).valid(), ensures final(self).valid();

    fn acknowledge_discrepancy(
        &mut self,
        env: &BlockchainEnv,
        probe: &PauseProbe,
        pai_id: Vec<u8>,
        period_end: u64,
        acknowledgement_cid: Vec<u8>,
    ) -> (r: Result<AggregatorEvent, &'static str>)
        requires old(self).valid(), ensures final(self).valid();

    fn propose_oracle_update(
        &mut self,
        env: &BlockchainEnv,
        probe: &PauseProbe,
        current_oracle: Vec<u8>,
        proposed_oracle: Vec<u8>,
        scope_end_epoch: u64,
    ) -> (r: Result<AggregatorEvent, &'static str>)
        requires old(self).valid(), ensures final(self).valid();

    fn accept_oracle_update(&mut self, env: &BlockchainEnv, probe: &PauseProbe, current_oracle: Vec<u8>) -> (r: Result<AggregatorEvent, &'static str>)
        requires old(self).valid(), ensures final(self).valid();

    fn cancel_expired_proposal(&mut self, env: &BlockchainEnv, probe: &PauseProbe, current_oracle: Vec<u8>) -> (r: Result<(), &'static str>)
        requires old(self).valid(), ensures final(self).valid();

    fn upgrade(&mut self) -> (r: Result<(), &'static str>)
        requires old(self).valid(), ensures final(self).valid();
}

impl MrvAggregator for AggregatorState {
    open spec fn valid(&self) -> bool {
        self.wf()
    }

    /// Sets the quorum, the coherence windows (0 picks the default) and the
    /// divergence threshold (0 picks 3000 bps).
    fn init(
        env: &BlockchainEnv,
        quorum: u32,
        iot_window: u64,
        satellite_window: u64,
        govt_lab_window: u64,
        divergence_threshold_bps: u64,
    ) -> (r: Result<Self, &'static str>)
        ensures
            ({
                let iw = if iot_window > 0 { iot_window } else { DEFAULT_IOT_WINDOW };
                let sw = if satellite_window > 0 { satellite_window } else { DEFAULT_SATELLITE_WINDOW };
                let gw = if govt_lab_window > 0 { govt_lab_window } else { DEFAULT_GOVT_LAB_WINDOW };
                if quorum < QUORUM_MIN {
                    r == Err::<Self, &'static str>("quorum must be >= 2")
                } else if quorum > 3 {
                    r == Err::<Self, &'static str>("quorum exceeds available oracle source count")
                } else if window_error(iw) is Some {
                    r == Err::<Self, &'static str>(window_error(iw)->0)
                } else if window_error(sw) is Some {
                    r == Err::<Self, &'static str>(window_error(sw)->0)
                } else if window_error(gw) is Some {
                    r == Err::<Self, &'static str>(window_error(gw)->0)
                } else {
                    r matches Ok(s) && {
                        &&& s.wf()
                        &&& s.gov.governance is None
                        &&& s.quorum == quorum
                        &&& s.iot_window == iw
                        &&& s.satellite_window == sw
                        &&& s.govt_lab_window == gw
                        &&& s.divergence_threshold_bps == (if divergence_threshold_bps > 0 { divergence_threshold_bps } else { DEFAULT_DIVERGENCE_THRESHOLD_BPS })
                        &&& s.oracle_readings@ == Map::<Seq<u8>, OracleReading>::empty()
                        &&& s.sealed_events@ == Map::<Seq<u8>, SealedEvent>::empty()
                        &&& s.authorized_oracles@ == Map::<Seq<u8>, ()>::empty()
                        &&& s.authorized_verifiers@ == Map::<Seq<u8>, ()>::empty()
                        &&& s.registered_devices@ == Map::<Seq<u8>, ()>::empty()
                        &&& s.governance_read_address is None
                        &&& s.storage_version == 1
                    }
                }
            }),
    {
        if quorum < QUORUM_MIN {
            return Err("quorum must be >= 2");
        }
        if quorum > 3 {
            return Err("quorum exceeds available oracle source count");
        }
        let iw = if iot_window > 0 { iot_window } else { DEFAULT_IOT_WINDOW };
        let sw = if satellite_window > 0 { satellite_window } else { DEFAULT_SATELLITE_WINDOW };
        let gw = if govt_lab_window > 0 { govt_lab_window } else { DEFAULT_GOVT_LAB_WINDOW };
        if let Err(e) = require_valid_coherence_window(iw) {
            return Err(e);
        }
        if let Err(e) = require_valid_coherence_window(sw) {
            return Err(e);
        }
        if let Err(e) = require_valid_coherence_window(gw) {
            return Err(e);
        }
        let state = AggregatorState {
            gov: MrvGovernanceState::new(),
            oracle_readings: Table::new(),
            sealed_events: Table::new(),
            quorum,
            iot_window: iw,
            satellite_window: sw,
            govt_lab_window: gw,
            divergence_threshold_bps: if divergence_threshold_bps > 0 { divergence_threshold_bps } else { DEFAULT_DIVERGENCE_THRESHOLD_BPS },
            discrepancy_acknowledged: Table::new(),
            authorized_oracles: Table::new(),
            oracle_source_authorizations: Table::new(),
            authorized_verifiers: Table::new(),
            registered_devices: Table::new(),
            device_public_keys: Table::new(),
            pending_oracle_proposals: Table::new(),
            governance_read_address: None,
            storage_version: 1,
        };
        assert(state.registered_devices@.dom() =~= state.device_public_keys@.dom());
        Ok(state)
    }

    fn set_governance_read_address(&mut self, env: &BlockchainEnv, addr: Vec<u8>) -> (r: Result<(), &'static str>)
        ensures
            old(self).auth_error(env) is Some ==> r == Err::<(), &'static str>(old(self).auth_error(env)->0) && *final(self) == *old(self),
            old(self).auth_error(env) is None && addr@ == zero_address() ==>
                r == Err::<(), &'static str>("governance_read_address must not be zero") && *final(self) == *old(self),
            old(self).auth_error(env) is None && addr@ != zero_address() ==>
                r is Ok && *final(self) == (AggregatorState { governance_read_address: Some(addr), ..*old(self) }),
    {
        if let Err(e) = self.gov.require_governance_or_owner(env) {
            return Err(e);
        }
        if is_zero_address(&addr) {
            return Err("governance_read_address must not be zero");
        }
        self.governance_read_address = Some(addr);
        Ok(())
    }

    fn clear_governance_read_address(&mut self, env: &BlockchainEnv) -> (r: Result<(), &'static str>)
        ensures
            old(self).auth_error(env) is Some ==> r == Err::<(), &'static str>(old(self).auth_error(env)->0) && *final(self) == *old(self),
            old(self).auth_error(env) is None ==>
                r is Ok && *final(self) == (AggregatorState { governance_read_address: None, ..*old(self) }),
    {
        if let Err(e) = self.gov.require_governance_or_owner(env) {
            return Err(e);
        }
        self.governance_read_address = None;
        Ok(())
    }

    /// Raises the quorum; it can never be lowered.
    fn set_quorum(&mut self, env: &BlockchainEnv, probe: &PauseProbe, quorum: u32) -> (r: Result<(), &'static str>)
        ensures
            match old(self).set_quorum_error(env, *probe, quorum) {
                Some(e) => r == Err::<(), &'static str>(e) && *final(self) == *old(self),
                None => r is Ok && *final(self) == (AggregatorState { quorum, ..*old(self) }),
            },
            final(self).quorum >= old(self).quorum,
    {
        if let Err(e) = self.gov.require_governance_or_owner(env) {
            return Err(e);
        }
        if let Err(e) = require_not_paused(&self.governance_read_address, probe) {
            return Err(e);
        }
        if quorum < 2 {
            return Err("quorum must be >= 2 (QUORUM_MIN)");
        }
        if quorum > 3 {
            return Err("quorum exceeds available oracle source count");
        }
        if quorum < self.quorum {
            return Err("QUORUM_DECREASE_DISABLED: quorum changes must not reduce the current threshold");
        }
        self.quorum = quorum;
        Ok(())
    }

    fn set_coherence_windows(
        &mut self,
        env: &BlockchainEnv,
        probe: &PauseProbe,
        iot_window: u64,
        satellite_window: u64,
        govt_lab_window: u64,
    ) -> (r: Result<(), &'static str>)
        ensures
            old(self).admin_error(env, *probe) is Some ==>
                r == Err::<(), &'static str>(old(self).admin_error(env, *probe)->0) && *final(self) == *old(self),
            old(self).admin_error(env, *probe) is None ==> {
                if window_error(iot_window) is Some {
                    r == Err::<(), &'static str>(window_error(iot_window)->0) && *final(self) == *old(self)
                } else if window_error(satellite_window) is Some {
                    r == Err::<(), &'static str>(window_error(satellite_window)->0) && *final(self) == *old(self)
                } else if window_error(govt_lab_window) is Some {
                    r == Err::<(), &'static str>(window_error(govt_lab_window)->0) && *final(self) == *old(self)
                } else {
                    r is Ok && *final(self) == (AggregatorState { iot_window, satellite_window, govt_lab_window, ..*old(self) })
                }
            },
    {
        if let Err(e) = self.gov.require_governance_or_owner(env) {
            return Err(e);
        }
        if let Err(e) = require_not_paused(&self.governance_read_address, probe) {
            return Err(e);
        }
        if let Err(e) = require_valid_coherence_window(iot_window) {
            return Err(e);
        }
        if let Err(e) = require_valid_coherence_window(satellite_window) {
            return Err(e);
        }
        if let Err(e) = require_valid_coherence_window(govt_lab_window) {
            return Err(e);
        }
        self.iot_window = iot_window;
        self.satellite_window = satellite_window;
        self.govt_lab_window = govt_lab_window;
        Ok(())
    }

    /// Authorizes an oracle for every source.
    fn register_oracle(&mut self, env: &BlockchainEnv, probe: &PauseProbe, oracle: Vec<u8>) -> (r: Result<(), &'static str>)
        ensures
            old(self).admin_error(env, *probe) is Some ==>
                r == Err::<(), &'static str>(old(self).admin_error(env, *probe)->0) && *final(self) == *old(self),
            old(self).admin_error(env, *probe) is None && oracle@ == zero_address() ==>
                r == Err::<(), &'static str>("oracle must not be zero") && *final(self) == *old(self),
            old(self).admin_error(env, *probe) is None && oracle@ != zero_address() ==> {
                &&& r is Ok
                &&& final(self).authorized_oracles@ == old(self).authorized_oracles@.insert(oracle@, ())
                &&& final(self).oracle_source_authorizations@ == grant_all(old(self).oracle_source_authorizations@, oracle@)
                &&& *final(self) == (AggregatorState {
                    authorized_oracles: final(self).authorized_oracles,
                    oracle_source_authorizations: final(self).oracle_source_authorizations,
                    ..*old(self)
                })
            },
    {
        if let Err(e) = self.gov.require_governance_or_owner(env) {
            return Err(e);
        }
        if let Err(e) = require_not_paused(&self.governance_read_address, probe) {
            return Err(e);
        }
        if is_zero_address(&oracle) {
            return Err("oracle must not be zero");
        }
        self.authorized_oracles.insert(copy_bytes(&oracle), ());
        self.grant_all_oracle_sources(&oracle);
        Ok(())
    }

    /// Withdraws an oracle and all its source grants.
    fn deregister_oracle(&mut self, env: &BlockchainEnv, probe: &PauseProbe, oracle: Vec<u8>) -> (r: Result<(), &'static str>)
        ensures
            old(self).admin_error(env, *probe) is Some ==>
                r == Err::<(), &'static str>(old(self).admin_error(env, *probe)->0) && *final(self) == *old(self),
            old(self).admin_error(env, *probe) is None ==> {
                &&& r is Ok
                &&& final(self).authorized_oracles@ == old(self).authorized_oracles@.remove(oracle@)
                &&& final(self).oracle_source_authorizations@ == revoke_all(old(self).oracle_source_authorizations@, oracle@)
                &&& *final(self) == (AggregatorState {
                    authorized_oracles: final(self).authorized_oracles,
                    oracle_source_authorizations: final(self).oracle_source_authorizations,
                    ..*old(self)
                })
            },
    {
        if let Err(e) = self.gov.require_governance_or_owner(env) {
            return Err(e);
        }
        if let Err(e) = require_not_paused(&self.governance_read_address, probe) {
            return Err(e);
        }
        self.authorized_oracles.remove(&oracle);
        self.revoke_all_oracle_sources(&oracle);
        Ok(())
    }

    /// Grants one source to an oracle (authorizing the oracle if needed). A
    /// legacy oracle without grant rows first receives every source, so the
    /// change only narrows what is later revoked.
    fn register_oracle_for_source(&mut self, env: &BlockchainEnv, probe: &PauseProbe, oracle: Vec<u8>, source: u8) -> (r: Result<(), &'static str>)
        ensures
            old(self).admin_error(env, *probe) is Some ==>
                r == Err::<(), &'static str>(old(self).admin_error(env, *probe)->0) && *final(self) == *old(self),
            old(self).admin_error(env, *probe) is None && oracle@ == zero_address() ==>
                r == Err::<(), &'static str>("oracle must not be zero") && *final(self) == *old(self),
            old(self).admin_error(env, *probe) is None && oracle@ != zero_address() && !valid_source(source) ==>
                r == Err::<(), &'static str>("source must be 0 (IoT), 1 (Satellite), or 2 (GovtLab)") && *final(self) == *old(self),
            old(self).admin_error(env, *probe) is None && oracle@ != zero_address() && valid_source(source) ==> {
                let g = old(self).oracle_source_authorizations@;
                let legacy = old(self).authorized_oracles@.contains_key(oracle@) && !has_any_grant(g, oracle@);
                &&& r is Ok
                &&& final(self).authorized_oracles@ == old(self).authorized_oracles@.insert(oracle@, ())
                &&& final(self).oracle_source_authorizations@ == (if legacy { grant_all(g, oracle@) } else { g }).insert(
                    grant_key(oracle@, source),
                    (),
                )
                &&& *final(self) == (AggregatorState {
                    authorized_oracles: final(self).authorized_oracles,
                    oracle_source_authorizations: final(self).oracle_source_authorizations,
                    ..*old(self)
                })
            },
    {
        if let Err(e) = self.gov.require_governance_or_owner(env) {
            return Err(e);
        }
        if let Err(e) = require_not_paused(&self.governance_read_address, probe) {
            return Err(e);
        }
        if is_zero_address(&oracle) {
            return Err("oracle must not be zero");
        }
        if !(source == SOURCE_IOT || source == SOURCE_SATELLITE || source == SOURCE_GOVT_LAB) {
            return Err("source must be 0 (IoT), 1 (Satellite), or 2 (GovtLab)");
        }
        if self.authorized_oracles.contains_key(&oracle) && !self.oracle_has_any_source_authorization(&oracle) {
            self.grant_all_oracle_sources(&oracle);
        }
        self.authorized_oracles.insert(copy_bytes(&oracle), ());
        self.oracle_source_authorizations.insert(make_key2(&oracle, &source_key(source)), ());
        Ok(())
    }

    /// Revokes one source from an oracle (materializing a legacy oracle's
    /// implicit grants first).
    fn revoke_oracle_source(&mut self, env: &BlockchainEnv, probe: &PauseProbe, oracle: Vec<u8>, source: u8) -> (r: Result<(), &'static str>)
        ensures
            old(self).admin_error(env, *probe) is Some ==>
                r == Err::<(), &'static str>(old(self).admin_error(env, *probe)->0) && *final(self) == *old(self),
            old(self).admin_error(env, *probe) is None && !valid_source(source) ==>
                r == Err::<(), &'static str>("source must be 0 (IoT), 1 (Satellite), or 2 (GovtLab)") && *final(self) == *old(self),
            old(self).admin_error(env, *probe) is None && valid_source(source) ==> {
                let g = old(self).oracle_source_authorizations@;
                let legacy = old(self).authorized_oracles@.contains_key(oracle@) && !has_any_grant(g, oracle@);
                &&& r is Ok
                &&& final(self).oracle_source_authorizations@ == (if legacy { grant_all(g, oracle@) } else { g }).remove(
                    grant_key(oracle@, source),
                )
                &&& *final(self) == (AggregatorState {
                    oracle_source_authorizations: final(self).oracle_source_authorizations,
                    ..*old(self)
                })
            },
    {
        if let Err(e) = self.gov.require_governance_or_owner(env) {
            return Err(e);
        }
        if let Err(e) = require_not_paused(&self.governance_read_address, probe) {
            return Err(e);
        }
        if !(source == SOURCE_IOT || source == SOURCE_SATELLITE || source == SOURCE_GOVT_LAB) {
            return Err("source must be 0 (IoT), 1 (Satellite), or 2 (GovtLab)");
        }
        if self.authorized_oracles.contains_key(&oracle) && !self.oracle_has_any_source_authorization(&oracle) {
            self.grant_all_oracle_sources(&oracle);
        }
        self.oracle_source_authorizations.remove(&make_key2(&oracle, &source_key(source)));
        Ok(())
    }

    fn register_verifier(&mut self, env: &BlockchainEnv, probe: &PauseProbe, verifier: Vec<u8>) -> (r: Result<(), &'static str>)
        ensures
            old(self).admin_error(env, *probe) is Some ==>
                r == Err::<(), &'static str>(old(self).admin_error(env, *probe)->0) && *final(self) == *old(self),
            old(self).admin_error(env, *probe) is None && verifier@ == zero_address() ==>
                r == Err::<(), &'static str>("verifier must not be zero") && *final(self) == *old(self),
            old(self).admin_error(env, *probe) is None && verifier@ != zero_address() ==> {
                &&& r is Ok
                &&& final(self).authorized_verifiers@ == old(self).authorized_verifiers@.insert(verifier@, ())
                &&& *final(self) == (AggregatorState { authorized_verifiers: final(self).authorized_verifiers, ..*old(self) })
            },
    {
        if let Err(e) = self.gov.require_governance_or_owner(env) {
            return Err(e);
        }
        if let Err(e) = require_not_paused(&self.governance_read_address, probe) {
            return Err(e);
        }
        if is_zero_address(&verifier) {
            return Err("verifier must not be zero");
        }
        self.authorized_verifiers.insert(verifier, ());
        Ok(())
    }

    fn deregister_verifier(&mut self, env: &BlockchainEnv, probe: &PauseProbe, verifier: Vec<u8>) -> (r: Result<(), &'static str>)
        ensures
            old(self).admin_error(env, *probe) is Some ==>
                r == Err::<(), &'static str>(old(self).admin_error(env, *probe)->0) && *final(self) == *old(self),
            old(self).admin_error(env, *probe) is None ==> {
                &&& r is Ok
                &&& final(self).authorized_verifiers@ == old(self).authorized_verifiers@.remove(verifier@)
                &&& *final(self) == (AggregatorState { authorized_verifiers: final(self).authorized_verifiers, ..*old(self) })
            },
    {
        if let Err(e) = self.gov.require_governance_or_owner(env) {
            return Err(e);
        }
        if let Err(e) = require_not_paused(&self.governance_read_address, probe) {
            return Err(e);
        }
        self.authorized_verifiers.remove(&verifier);
        Ok(())
    }

    /// Always refused: a device needs its Ed25519 key
    /// (`register_device_public_key`).
    fn register_device(&mut self, env: &BlockchainEnv, probe: &PauseProbe, device_did: Vec<u8>) -> (r: Result<(), &'static str>)
        ensures
            *final(self) == *old(self),
            r == Err::<(), &'static str>(
                if old(self).admin_error(env, *probe) is Some {
                    old(self).admin_error(env, *probe)->0
                } else {
                    "registerDevicePublicKey required"
                },
            ),
    {
        if let Err(e) = self.gov.require_governance_or_owner(env) {
            return Err(e);
        }
        if let Err(e) = require_not_paused(&self.governance_read_address, probe) {
            return Err(e);
        }
        Err("registerDevicePublicKey required")
    }

    /// Registers a device with its 32-byte Ed25519 public key.
    fn register_device_public_key(
        &mut self,
        env: &BlockchainEnv,
        probe: &PauseProbe,
        device_did: Vec<u8>,
        ed25519_public_key: Vec<u8>,
    ) -> (r: Result<(), &'static str>)
        ensures
            old(self).admin_error(env, *probe) is Some ==>
                r == Err::<(), &'static str>(old(self).admin_error(env, *probe)->0) && *final(self) == *old(self),
            old(self).admin_error(env, *probe) is None && device_did@ == zero_address() ==>
                r == Err::<(), &'static str>("device_did must not be zero") && *final(self) == *old(self),
            old(self).admin_error(env, *probe) is None && device_did@ != zero_address() && ed25519_public_key@.len() != 32 ==>
                r == Err::<(), &'static str>("invalid ed25519 public key length") && *final(self) == *old(self),
            old(self).admin_error(env, *probe) is None && device_did@ != zero_address() && ed25519_public_key@.len() == 32 ==> {
                &&& r is Ok
                &&& final(self).device_public_keys@ == old(self).device_public_keys@.insert(device_did@, ed25519_public_key)
                &&& final(self).registered_devices@ == old(self).registered_devices@.insert(device_did@, ())
                &&& *final(self) == (AggregatorState {
                    device_public_keys: final(self).device_public_keys,
                    registered_devices: final(self).registered_devices,
                    ..*old(self)
                })
            },
    {
        if let Err(e) = self.gov.require_governance_or_owner(env) {
            return Err(e);
        }
        if let Err(e) = require_not_paused(&self.governance_read_address, probe) {
            return Err(e);
        }
        if is_zero_address(&device_did) {
            return Err("device_did must not be zero");
        }
        if ed25519_public_key.len() != 32 {
            return Err("invalid ed25519 public key length");
        }
        let ghost d = device_did@;
        self.device_public_keys.insert(copy_bytes(&device_did), ed25519_public_key);
        self.registered_devices.insert(device_did, ());
        assert(self.registered_devices@.dom() =~= self.device_public_keys@.dom());
        Ok(())
    }

    /// Removes a device and its key.
    fn deregister_device(&mut self, env: &BlockchainEnv, probe: &PauseProbe, device_did: Vec<u8>) -> (r: Result<(), &'static str>)
        ensures
            old(self).admin_error(env, *probe) is Some ==>
                r == Err::<(), &'static str>(old(self).admin_error(env, *probe)->0) && *final(self) == *old(self),
            old(self).admin_error(env, *probe) is None ==> {
                &&& r is Ok
                &&& final(self).device_public_keys@ == old(self).device_public_keys@.remove(device_did@)
                &&& final(self).registered_devices@ == old(self).registered_devices@.remove(device_did@)
                &&& *final(self) == (AggregatorState {
                    device_public_keys: final(self).device_public_keys,
                    registered_devices: final(self).registered_devices,
                    ..*old(self)
                })
            },
    {
        if let Err(e) = self.gov.require_governance_or_owner(env) {
            return Err(e);
        }
        if let Err(e) = require_not_paused(&self.governance_read_address, probe) {
            return Err(e);
        }
        self.device_public_keys.remove(&device_did);
        self.registered_devices.remove(&device_did);
        assert(self.registered_devices@.dom() =~= self.device_public_keys@.dom());
        Ok(())
    }

    /// Submits a reading from an authorized oracle. An IoT reading must be
    /// signed (Ed25519) by its registered device over the reading's fields
    /// and the contract address.
    fn submit_oracle_reading(
        &mut self,
        env: &BlockchainEnv,
        probe: &PauseProbe,
        pai_id: Vec<u8>,
        period_start: u64,
        period_end: u64,
        source: u8,
        data_cid: Vec<u8>,
        source_timestamp: u64,
        device_did: Vec<u8>,
        device_signature: Vec<u8>,
    ) -> (r: Result<AggregatorEvent, &'static str>)
        ensures
            ({
                let signature_ok = old(self).device_public_keys@.contains_key(device_did@) && ed25519_valid(
                    old(self).device_public_keys@[device_did@]@,
                    reading_signature_payload(env.contract@, pai_id@, period_start, period_end, source, data_cid@,
                        source_timestamp, device_did@),
                    device_signature@,
                );
                old(self).reading_outcome(env, *probe, pai_id, period_start, period_end, source, data_cid,
                    source_timestamp, device_did, device_signature, signature_ok, r, *final(self))
            }),
    {
        let signature_ok = if source == SOURCE_IOT {
            match self.device_public_keys.get(&device_did) {
                Some(key) => {
                    let payload = AggregatorState::build_oracle_reading_signature_payload(
                        &env.contract,
                        &pai_id,
                        period_start,
                        period_end,
                        source,
                        &data_cid,
                        source_timestamp,
                        &device_did,
                    );
                    verify_ed25519(key, &payload, &device_signature)
                },
                None => false,
            }
        } else {
            true
        };
        let ghost expected = old(self).device_public_keys@.contains_key(device_did@) && ed25519_valid(
            old(self).device_public_keys@[device_did@]@,
            reading_signature_payload(env.contract@, pai_id@, period_start, period_end, source, data_cid@,
                source_timestamp, device_did@),
            device_signature@,
        );
        assert(source == SOURCE_IOT ==> signature_ok == expected);
        self.record_oracle_reading(env, probe, pai_id, period_start, period_end, source, data_cid, source_timestamp,
            device_did, device_signature, signature_ok)
    }

    /// Seals a period whose readings inside their coherence windows reach
    /// the quorum; an IoT-satellite divergence must first be acknowledged.
    /// The readings and the acknowledgement are then cleared.
    fn try_seal(&mut self, env: &BlockchainEnv, probe: &PauseProbe, pai_id: Vec<u8>, period_end: u64) -> (r: Result<AggregatorEvent, &'static str>)
        ensures
            match old(self).try_seal_error(env, *probe, pai_id@, period_end) {
                Some(e) => r == Err::<AggregatorEvent, &'static str>(e) && *final(self) == *old(self),
                None => {
                    let cids = old(self).windowed_cids(pai_id@, period_end);
                    let disc = old(self).seal_discrepancy(pai_id@, period_end);
                    &&& r matches Ok(AggregatorEvent::EventSealed { pai_id: p, mrv_root: m }) && p@ == pai_id@
                        && m@ == final(self).sealed_events@[seal_key(pai_id@, period_end)].mrv_root@
                    &&& old(self).sealed_after(*final(self), pai_id@, period_end, cids, disc, env.block_timestamp)
                },
            },
    {
        if let Err(e) = require_not_paused(&self.governance_read_address, probe) {
            return Err(e);
        }
        let caller = &env.caller;
        if !(bytes_eq(caller, &env.owner) || self.authorized_oracles.contains_key(caller)
            || self.authorized_verifiers.contains_key(caller)) {
            return Err("only owner, authorized oracle, or authorized verifier can seal");
        }
        if pai_id.len() == 0 {
            return Err("empty pai_id");
        }
        if !(env.block_timestamp > period_end) {
            return Err("PERIOD_NOT_ENDED: cannot seal before monitoring period closes");
        }
        let pk = period_key(period_end);
        let sk = make_key2(&pai_id, &pk);
        if self.sealed_events.contains_key(&sk) {
            return Err("EVENT_ALREADY_SEALED: period already sealed");
        }
        let (cids, iot, sat) = self.collect_cids(&pai_id, &pk, period_end, true);
        let reading_count: u32 = cids.len() as u32;
        if reading_count < self.quorum {
            return Err("insufficient oracle readings for quorum");
        }
        let semantic_discrepancy = match (&iot, &sat) {
            (Some(i), Some(s)) => check_semantic_divergence(i, s, self.divergence_threshold_bps),
            _ => false,
        };
        if semantic_discrepancy && !self.discrepancy_acknowledged.contains_key(&sk) {
            return Err(
                "DISCREPANCY_NOT_ACKNOWLEDGED: IoT-Satellite divergence detected — call acknowledgeDiscrepancy before sealing",
            );
        }
        let event_pai = copy_bytes(&pai_id);
        match self.commit_seal(env, pai_id, period_end, pk, sk, cids, semantic_discrepancy) {
            Ok(root) => Ok(AggregatorEvent::EventSealed { pai_id: event_pai, mrv_root: root }),
            Err(e) => Err(e),
        }
    }

    /// After the government-lab window has also elapsed, governance may seal
    /// with every stored reading, provided they reach the quorum and the IoT
    /// and satellite readings both exist and agree.
    fn force_seal_after_timeout(&mut self, env: &BlockchainEnv, probe: &PauseProbe, pai_id: Vec<u8>, period_end: u64) -> (r: Result<AggregatorEvent, &'static str>)
        ensures
            match old(self).force_seal_error(env, *probe, pai_id@, period_end) {
                Some(e) => r == Err::<AggregatorEvent, &'static str>(e) && *final(self) == *old(self),
                None => {
                    &&& r matches Ok(AggregatorEvent::ForceSealed { pai_id: p, mrv_root: m }) && p@ == pai_id@
                        && m@ == final(self).sealed_events@[seal_key(pai_id@, period_end)].mrv_root@
                    &&& old(self).sealed_after(*final(self), pai_id@, period_end, old(self).present_cids(pai_id@, period_end), false,
                        env.block_timestamp)
                },
            },
    {
        if let Err(e) = self.gov.require_governance_or_owner(env) {
            return Err(e);
        }
        if let Err(e) = require_not_paused(&self.governance_read_address, probe) {
            return Err(e);
        }
        if pai_id.len() == 0 {
            return Err("empty pai_id");
        }
        if !(env.block_timestamp > period_end) {
            return Err("period has not ended yet");
        }
        if period_end > u64::MAX - self.govt_lab_window {
            return Err("timeout window overflow");
        }
        let timeout_at = period_end + self.govt_lab_window;
        if env.block_timestamp < timeout_at {
            return Err("timeout window has not elapsed — wait for coherence window to expire");
        }
        let pk = period_key(period_end);
        let sk = make_key2(&pai_id, &pk);
        if self.sealed_events.contains_key(&sk) {
            return Err("EVENT_ALREADY_SEALED");
        }
        let (cids, iot, sat) = self.collect_cids(&pai_id, &pk, period_end, false);
        if (cids.len() as u32) < self.quorum {
            return Err("insufficient oracle readings for configured quorum");
        }
        let has_discrepancy = match (&iot, &sat) {
            (Some(i), Some(s)) => check_semantic_divergence(i, s, self.divergence_threshold_bps),
            _ => true,
        };
        if has_discrepancy {
            return Err(
                "TIMEOUT_FORCE_SEAL_REQUIRES_NON_DISCREPANT_IOT_SATELLITE: cannot force-seal missing or divergent IoT/Satellite readings",
            );
        }
        let event_pai = copy_bytes(&pai_id);
        match self.commit_seal(env, pai_id, period_end, pk, sk, cids, false) {
            Ok(root) => Ok(AggregatorEvent::ForceSealed { pai_id: event_pai, mrv_root: root }),
            Err(e) => Err(e),
        }
    }

    /// The owner or an authorized verifier acknowledges an IoT-satellite
    /// discrepancy of a period that has both readings.
    fn acknowledge_discrepancy(
        &mut self,
        env: &BlockchainEnv,
        probe: &PauseProbe,
        pai_id: Vec<u8>,
        period_end: u64,
        acknowledgement_cid: Vec<u8>,
    ) -> (r: Result<AggregatorEvent, &'static str>)
        ensures
            match old(self).acknowledge_error(env, *probe, pai_id@, period_end, acknowledgement_cid@) {
                Some(e) => r == Err::<AggregatorEvent, &'static str>(e) && *final(self) == *old(self),
                None => {
                    &&& r matches Ok(AggregatorEvent::DiscrepancyAcknowledged { pai_id: p }) && p@ == pai_id@
                    &&& final(self).discrepancy_acknowledged@ == old(self).discrepancy_acknowledged@.insert(
                        seal_key(pai_id@, period_end), acknowledgement_cid)
                    &&& *final(self) == (AggregatorState { discrepancy_acknowledged: final(self).discrepancy_acknowledged, ..*old(self) })
                },
            },
    {
        if let Err(e) = require_not_paused(&self.governance_read_address, probe) {
            return Err(e);
        }
        if !(bytes_eq(&env.caller, &env.owner) || self.authorized_verifiers.contains_key(&env.caller)) {
            return Err("only owner or authorized verifier (VVB) can acknowledge discrepancy");
        }
        if pai_id.len() == 0 {
            return Err("empty pai_id");
        }
        if acknowledgement_cid.len() == 0 {
            return Err("empty acknowledgement_cid");
        }
        let pk = period_key(period_end);
        let iot_key = make_key3(&pai_id, &pk, &source_key(SOURCE_IOT));
        let sat_key = make_key3(&pai_id, &pk, &source_key(SOURCE_SATELLITE));
        if !(self.oracle_readings.contains_key(&iot_key) && self.oracle_readings.contains_key(&sat_key)) {
            return Err(
                "CANNOT_ACKNOWLEDGE: both IoT and Satellite readings must exist before acknowledging discrepancy",
            );
        }
        self.discrepancy_acknowledged.insert(make_key2(&pai_id, &pk), acknowledgement_cid);
        Ok(AggregatorEvent::DiscrepancyAcknowledged { pai_id })
    }

    /// Proposes to replace an authorized oracle; the substitute must accept
    /// by `scope_end_epoch`.
    fn propose_oracle_update(
        &mut self,
        env: &BlockchainEnv,
        probe: &PauseProbe,
        current_oracle: Vec<u8>,
        proposed_oracle: Vec<u8>,
        scope_end_epoch: u64,
    ) -> (r: Result<AggregatorEvent, &'static str>)
        ensures
            match old(self).propose_oracle_update_error(env, *probe, current_oracle@, proposed_oracle@, scope_end_epoch) {
                Some(e) => r == Err::<AggregatorEvent, &'static str>(e) && *final(self) == *old(self),
                None => {
                    &&& r matches Ok(AggregatorEvent::OracleUpdateProposed { current_oracle: c, proposed_oracle: q, scope_end_epoch: e })
                        && c@ == current_oracle@ && q@ == proposed_oracle@ && e == scope_end_epoch
                    &&& final(self).pending_oracle_proposals@ == old(self).pending_oracle_proposals@.insert(
                        current_oracle@,
                        OracleProposal { proposed_oracle, scope_end_epoch, proposed_at: env.block_timestamp },
                    )
                    &&& *final(self) == (AggregatorState { pending_oracle_proposals: final(self).pending_oracle_proposals, ..*old(self) })
                },
            },
    {
        if let Err(e) = self.gov.require_governance_or_owner(env) {
            return Err(e);
        }
        if let Err(e) = require_not_paused(&self.governance_read_address, probe) {
            return Err(e);
        }
        if is_zero_address(&current_oracle) {
            return Err("current_oracle must not be zero");
        }
        if is_zero_address(&proposed_oracle) {
            return Err("proposed_oracle must not be zero");
        }
        if !self.authorized_oracles.contains_key(&current_oracle) {
            return Err("current_oracle not in authorized set");
        }
        if scope_end_epoch <= env.block_epoch {
            return Err("scope_end_epoch must be in the future");
        }
        let event = AggregatorEvent::OracleUpdateProposed {
            current_oracle: copy_bytes(&current_oracle),
            proposed_oracle: copy_bytes(&proposed_oracle),
            scope_end_epoch,
        };
        self.pending_oracle_proposals.insert(
            current_oracle,
            OracleProposal { proposed_oracle, scope_end_epoch, proposed_at: env.block_timestamp },
        );
        Ok(event)
    }

    /// The proposed oracle takes over: the current oracle leaves the set,
    /// the substitute joins it, grants are copied as the set then stands,
    /// and the current oracle's grants are revoked.
    fn accept_oracle_update(&mut self, env: &BlockchainEnv, probe: &PauseProbe, current_oracle: Vec<u8>) -> (r: Result<AggregatorEvent, &'static str>)
        ensures
            ({
                let p = old(self).pending_oracle_proposals@[current_oracle@];
                let oracles = old(self).authorized_oracles@.remove(current_oracle@).insert(p.proposed_oracle@, ());
                match old(self).accept_oracle_update_error(env, *probe, current_oracle@) {
                    Some(e) => r == Err::<AggregatorEvent, &'static str>(e) && *final(self) == *old(self),
                    None => {
                        &&& r matches Ok(AggregatorEvent::OracleUpdateAccepted { replaced_oracle: c, new_oracle: q })
                            && c@ == current_oracle@ && q@ == p.proposed_oracle@
                        &&& final(self).authorized_oracles@ == oracles
                        &&& final(self).oracle_source_authorizations@ == revoke_all(
                            copy_grants(oracles, old(self).oracle_source_authorizations@, current_oracle@, p.proposed_oracle@),
                            current_oracle@,
                        )
                        &&& final(self).pending_oracle_proposals@ == old(self).pending_oracle_proposals@.remove(current_oracle@)
                        &&& *final(self) == (AggregatorState {
                            authorized_oracles: final(self).authorized_oracles,
                            oracle_source_authorizations: final(self).oracle_source_authorizations,
                            pending_oracle_proposals: final(self).pending_oracle_proposals,
                            ..*old(self)
                        })
                    },
                }
            }),
    {
        if let Err(e) = require_not_paused(&self.governance_read_address, probe) {
            return Err(e);
        }
        let (proposed, scope_end_epoch) = match self.pending_oracle_proposals.get(&current_oracle) {
            None => {
                return Err("no pending proposal for this oracle");
            },
            Some(p) => (copy_bytes(&p.proposed_oracle), p.scope_end_epoch),
        };
        if !bytes_eq(&env.caller, &proposed) {
            return Err("only the proposed oracle can accept");
        }
        if env.block_epoch > scope_end_epoch {
            return Err("proposal scope has expired");
        }
        self.authorized_oracles.remove(&current_oracle);
        self.authorized_oracles.insert(copy_bytes(&proposed), ());
        self.copy_oracle_sources(&current_oracle, &proposed);
        self.revoke_all_oracle_sources(&current_oracle);
        self.pending_oracle_proposals.remove(&current_oracle);
        Ok(AggregatorEvent::OracleUpdateAccepted { replaced_oracle: current_oracle, new_oracle: proposed })
    }

    /// Anyone may drop a proposal whose scope has passed.
    fn cancel_expired_proposal(&mut self, env: &BlockchainEnv, probe: &PauseProbe, current_oracle: Vec<u8>) -> (r: Result<(), &'static str>)
        ensures
            match old(self).cancel_expired_proposal_error(env, *probe, current_oracle@) {
                Some(e) => r == Err::<(), &'static str>(e) && *final(self) == *old(self),
                None => {
                    &&& r is Ok
                    &&& final(self).pending_oracle_proposals@ == old(self).pending_oracle_proposals@.remove(current_oracle@)
                    &&& *final(self) == (AggregatorState { pending_oracle_proposals: final(self).pending_oracle_proposals, ..*old(self) })
                },
            },
    {
        if let Err(e) = require_not_paused(&self.governance_read_address, probe) {
            return Err(e);
        }
        let scope_end_epoch = match self.pending_oracle_proposals.get(&current_oracle) {
            None => {
                return Err("no pending proposal for this oracle");
            },
            Some(p) => p.scope_end_epoch,
        };
        if env.block_epoch <= scope_end_epoch {
            return Err("proposal has not expired yet");
        }
        self.pending_oracle_proposals.remove(&current_oracle);
        Ok(())
    }

    /// Runs the storage-version upgrade (target and minimum version 1).
    fn upgrade(&mut self) -> (r: Result<(), &'static str>)
        ensures
            match storage_version_upgrade_spec(old(self).storage_version, 1, 1) {
                Ok(v) => r is Ok && *final(self) == (AggregatorState { storage_version: v, ..*old(self) }),
                Err(e) => r == Err::<(), &'static str>(e) && *final(self) == *old(self),
            },
    {
        upgrade_storage_version(&mut self.storage_version, 1, 1)
    }
}

impl AggregatorState {
    /// Stores a reading once its signature check has come out as
    /// `signature_ok` (only an IoT reading's check counts).
    pub fn record_oracle_reading(
        &mut self,
        env: &BlockchainEnv,
        probe: &PauseProbe,
        pai_id: Vec<u8>,
        period_start: u64,
        period_end: u64,
        source: u8,
        data_cid: Vec<u8>,
        source_timestamp: u64,
        device_did: Vec<u8>,
        device_signature: Vec<u8>,
        signature_ok: bool,
    ) -> (r: Result<AggregatorEvent, &'static str>)
        requires
            old(self).wf(),
        ensures
            final(self).wf(),
            old(self).reading_outcome(env, *probe, pai_id, period_start, period_end, source, data_cid, source_timestamp,
                device_did, device_signature, signature_ok, r, *final(self)),
    {
        if let Err(e) = require_not_paused(&self.governance_read_address, probe) {
            return Err(e);
        }
        let caller = &env.caller;
        if !self.authorized_oracles.contains_key(caller) {
            return Err("ORACLE_NOT_AUTHORIZED: caller must be a registered authorized oracle");
        }
        if pai_id.len() == 0 {
            return Err("empty pai_id");
        }
        if period_start == 0 {
            return Err("invalid period_start");
        }
        if !(period_end > period_start) {
            return Err("period_end must be after period_start");
        }
        if !(source == SOURCE_IOT || source == SOURCE_SATELLITE || source == SOURCE_GOVT_LAB) {
            return Err("source must be 0 (IoT), 1 (Satellite), or 2 (GovtLab)");
        }
        if !self.is_oracle_source_authorized_internal(caller, source) {
            return Err("ORACLE_SOURCE_NOT_AUTHORIZED: caller is not authorized for this source");
        }
        if data_cid.len() == 0 {
            return Err("empty data_cid");
        }
        if source_timestamp == 0 {
            return Err("invalid source_timestamp");
        }
        if source_timestamp > env.block_timestamp {
            return Err("FUTURE_TIMESTAMP: source_timestamp cannot be in the future");
        }
        if source_timestamp < period_start {
            return Err("reading predates period");
        }
        if !(is_zero_address(&device_did) || self.registered_devices.contains_key(&device_did)) {
            return Err("DEVICE_NOT_REGISTERED: device_did must be registered via registerDevice");
        }
        if source == SOURCE_IOT {
            if device_signature.len() == 0 {
                return Err("INVALID_DEVICE_SIGNATURE: IoT readings require non-empty device_signature");
            }
            if device_signature.len() != 64 {
                return Err("INVALID_DEVICE_SIGNATURE: signature must be exactly 64 bytes (ed25519)");
            }
            if !self.device_public_keys.contains_key(&device_did) {
                return Err("DEVICE_PUBLIC_KEY_NOT_REGISTERED: device_did must have an Ed25519 public key");
            }
            if !signature_ok {
                return Err("ed25519 verify error");
            }
        }
        let pk = period_key(period_end);
        if self.sealed_events.contains_key(&make_key2(&pai_id, &pk)) {
            return Err("EVENT_ALREADY_SEALED: period already sealed for this PAI");
        }
        let window = self.get_coherence_window(source);
        let floor = if period_end >= window { period_end - window } else { 0 };
        if source_timestamp < floor {
            return Err("reading outside coherence window");
        }
        let reading_key = make_key3(&pai_id, &pk, &source_key(source));
        if self.oracle_readings.contains_key(&reading_key) {
            return Err("READING_ALREADY_SUBMITTED: reading already exists for this source/period");
        }
        let event = AggregatorEvent::OracleReadingSubmitted {
            pai_id: copy_bytes(&pai_id),
            data_cid: copy_bytes(&data_cid),
            device_did: copy_bytes(&device_did),
        };
        let reading = OracleReading {
            pai_id,
            period_start,
            period_end,
            source,
            data_cid,
            source_timestamp,
            device_did,
            device_signature,
        };
        self.oracle_readings.insert(reading_key, reading);
        Ok(event)
    }

    /// Writes the sealed record of a period and clears its readings and
    /// acknowledgement.
    fn commit_seal(
        &mut self,
        env: &BlockchainEnv,
        pai_id: Vec<u8>,
        period_end: u64,
        pk: Vec<u8>,
        sk: Vec<u8>,
        cids: Vec<Vec<u8>>,
        semantic_discrepancy: bool,
    ) -> (r: Result<Vec<u8>, &'static str>)
        requires
            old(self).wf(),
            cids@.len() <= 3,
            pk@ == u64_be(period_end),
            sk@ == seal_key(pai_id@, period_end),
        ensures
            final(self).wf(),
            r matches Ok(root) && root@ == final(self).sealed_events@[seal_key(pai_id@, period_end)].mrv_root@,
            old(self).sealed_after(*final(self), pai_id@, period_end, views(cids@), semantic_discrepancy, env.block_timestamp),
    {
        let root = match compute_mrv_root(&pai_id, period_end, &cids, semantic_discrepancy) {
            Ok(root) => root,
            Err(e) => {
                return Err(e);
            },
        };
        let k0 = make_key3(&pai_id, &pk, &source_key(SOURCE_IOT));
        let k1 = make_key3(&pai_id, &pk, &source_key(SOURCE_SATELLITE));
        let k2 = make_key3(&pai_id, &pk, &source_key(SOURCE_GOVT_LAB));
        let ack_key = copy_bytes(&sk);
        let root_out = copy_bytes(&root);
        let ghost k = sk@;
        let sealed = SealedEvent {
            pai_id,
            period_end,
            mrv_root: root,
            reading_count: cids.len() as u32,
            semantic_discrepancy,
            sealed_at: env.block_timestamp,
        };
        self.sealed_events.insert(sk, sealed);
        self.oracle_readings.remove(&k0);
        self.oracle_readings.remove(&k1);
        self.oracle_readings.remove(&k2);
        self.discrepancy_acknowledged.remove(&ack_key);
        assert(self.sealed_events@ =~= old(self).sealed_events@.insert(k, self.sealed_events@[k]));
        Ok(root_out)
    }}

impl AggregatorState {
    pub fn get_sealed_event(&self, pai_id: &[u8], period_end: u64) -> (r: Option<&SealedEvent>)
        requires
            self.wf(),
        ensures
            match r {
                Some(e) => self.sealed_events@.contains_key(seal_key(pai_id@, period_end))
                    && *e == self.sealed_events@[seal_key(pai_id@, period_end)],
                None => !self.sealed_events@.contains_key(seal_key(pai_id@, period_end)),
            },
    {
        let key = make_key2(pai_id, &period_key(period_end));
        self.sealed_events.get(&key)
    }

    pub fn is_sealed(&self, pai_id: &[u8], period_end: u64) -> (r: bool)
        requires
            self.wf(),
        ensures
            r == self.sealed_events@.contains_key(seal_key(pai_id@, period_end)),
    {
        let key = make_key2(pai_id, &period_key(period_end));
        self.sealed_events.contains_key(&key)
    }

    /// The stored reading of a source for a period, if any.
    pub fn get_oracle_reading(&self, pai_id: &[u8], period_end: u64, source: u8) -> (r: Option<&OracleReading>)
        requires
            self.wf(),
        ensures
            match r {
                Some(x) => self.present(pai_id@, period_end, source) && *x == self.oracle_readings@[reading_key(pai_id@, period_end, source)],
                None => !self.present(pai_id@, period_end, source),
            },
    {
        let key = make_key3(pai_id, &period_key(period_end), &source_key(source));
        self.oracle_readings.get(&key)
    }

    pub fn is_oracle_authorized(&self, oracle: &[u8]) -> (r: bool)
        requires
            self.wf(),
        ensures
            r == self.authorized_oracles@.contains_key(oracle@),
    {
        self.authorized_oracles.contains_key(oracle)
    }

    pub fn is_oracle_source_authorized(&self, oracle: &[u8], source: u8) -> (r: bool)
        requires
            self.wf(),
        ensures
            r == self.source_authorized(oracle@, source),
    {
        self.is_oracle_source_authorized_internal(oracle, source)
    }

    pub fn is_verifier_authorized(&self, verifier: &[u8]) -> (r: bool)
        requires
            self.wf(),
        ensures
            r == self.authorized_verifiers@.contains_key(verifier@),
    {
        self.authorized_verifiers.contains_key(verifier)
    }

    pub fn is_device_registered(&self, device_did: &[u8]) -> (r: bool)
        requires
            self.wf(),
        ensures
            r == self.registered_devices@.contains_key(device_did@),
    {
        self.registered_devices.contains_key(device_did)
    }

    pub fn get_governance_read_address(&self) -> (r: Option<&Vec<u8>>)
        ensures
            r == match self.governance_read_address {
                Some(ref a) => Some(a),
                None => None::<&Vec<u8>>,
            },
    {
        match &self.governance_read_address {
            Some(a) => Some(a),
            None => None,
        }
    }

    pub fn get_storage_version(&self) -> (r: u32)
        ensures
            r == self.storage_version,
    {
        self.storage_version
    }
}

// ── laws ────────────────────────────────────────────────────────────────

/// A sealed period is closed: it takes no further reading and can be
/// sealed neither again nor by timeout.
pub proof fn lemma_sealed_period_is_closed(
    s: AggregatorState,
    env: BlockchainEnv,
    probe: PauseProbe,
    pai_id: Seq<u8>,
    period_start: u64,
    period_end: u64,
    source: u8,
    data_cid: Seq<u8>,
    source_timestamp: u64,
    device_did: Seq<u8>,
    device_signature: Seq<u8>,
    signature_ok: bool,
)
    requires
        s.sealed_events@.contains_key(seal_key(pai_id, period_end)),
    ensures
        s.reading_error(&env, probe, pai_id, period_start, period_end, source, data_cid, source_timestamp, device_did,
            device_signature, signature_ok) is Some,
        s.try_seal_error(&env, probe, pai_id, period_end) is Some,
        s.force_seal_error(&env, probe, pai_id, period_end) is Some,
{
}

/// A timeout seal needs at least two readings (never a single one) and
/// an IoT and a satellite reading that agree.
pub proof fn lemma_force_seal_needs_agreeing_pair(s: AggregatorState, env: BlockchainEnv, probe: PauseProbe, pai_id: Seq<u8>, period_end: u64)
    requires
        s.wf(),
        s.force_seal_error(&env, probe, pai_id, period_end) is None,
    ensures
        s.present_cids(pai_id, period_end).len() >= 2,
        s.present(pai_id, period_end, SOURCE_IOT),
        s.present(pai_id, period_end, SOURCE_SATELLITE),
        !diverges(s.reading_cid(pai_id, period_end, SOURCE_IOT), s.reading_cid(pai_id, period_end, SOURCE_SATELLITE),
            s.divergence_threshold_bps),
{
}

/// A regular seal needs the configured quorum, hence at least two readings
/// inside their windows, and a divergent pair only once acknowledged.
pub proof fn lemma_seal_needs_quorum(s: AggregatorState, env: BlockchainEnv, probe: PauseProbe, pai_id: Seq<u8>, period_end: u64)
    requires
        s.wf(),
        s.try_seal_error(&env, probe, pai_id, period_end) is None,
    ensures
        s.windowed_cids(pai_id, period_end).len() >= s.quorum >= 2,
        s.seal_discrepancy(pai_id, period_end) ==> s.discrepancy_acknowledged@.contains_key(seal_key(pai_id, period_end)),
{
}

/// A reading is in its coherence window when it is stored and was taken no
/// earlier than the period end less that source's own configured window:
/// the IoT window for IoT readings, the satellite window for satellite
/// readings, the government-lab window for lab readings.
pub proof fn lemma_reading_window(s: AggregatorState, pai_id: Seq<u8>, period_end: u64)
    ensures
        s.in_window(pai_id, period_end, SOURCE_IOT) <==> s.present(pai_id, period_end, SOURCE_IOT)
            && s.oracle_readings@[reading_key(pai_id, period_end, SOURCE_IOT)].source_timestamp >= period_end - s.iot_window,
        s.in_window(pai_id, period_end, SOURCE_SATELLITE) <==> s.present(pai_id, period_end, SOURCE_SATELLITE)
            && s.oracle_readings@[reading_key(pai_id, period_end, SOURCE_SATELLITE)].source_timestamp >= period_end
            - s.satellite_window,
        s.in_window(pai_id, period_end, SOURCE_GOVT_LAB) <==> s.present(pai_id, period_end, SOURCE_GOVT_LAB)
            && s.oracle_readings@[reading_key(pai_id, period_end, SOURCE_GOVT_LAB)].source_timestamp >= period_end
            - s.govt_lab_window,
{
}

/// A seal counts every reading it may, and only those: for a regular seal,
/// each of the IoT, satellite and government-lab readings of the period
/// that lies in its coherence window contributes its CID, so the count is
/// the number of such readings; a timeout seal counts every stored reading
/// of the three sources in the same way.
pub proof fn lemma_seal_counts_every_reading(s: AggregatorState, pai_id: Seq<u8>, period_end: u64, source: u8)
    ensures
        valid_source(source) && s.in_window(pai_id, period_end, source)
            ==> s.windowed_cids(pai_id, period_end).contains(s.reading_cid(pai_id, period_end, source)),
        valid_source(source) && s.present(pai_id, period_end, source)
            ==> s.present_cids(pai_id, period_end).contains(s.reading_cid(pai_id, period_end, source)),
        s.windowed_cids(pai_id, period_end).len() == (if s.in_window(pai_id, period_end, SOURCE_IOT) { 1int } else { 0 })
            + (if s.in_window(pai_id, period_end, SOURCE_SATELLITE) { 1int } else { 0 })
            + (if s.in_window(pai_id, period_end, SOURCE_GOVT_LAB) { 1int } else { 0 }),
        s.present_cids(pai_id, period_end).len() == (if s.present(pai_id, period_end, SOURCE_IOT) { 1int } else { 0 })
            + (if s.present(pai_id, period_end, SOURCE_SATELLITE) { 1int } else { 0 })
            + (if s.present(pai_id, period_end, SOURCE_GOVT_LAB) { 1int } else { 0 }),
        forall|i: int| 0 <= i < s.windowed_cids(pai_id, period_end).len() ==> {
            let c = #[trigger] s.windowed_cids(pai_id, period_end)[i];
            ||| s.in_window(pai_id, period_end, SOURCE_IOT) && c == s.reading_cid(pai_id, period_end, SOURCE_IOT)
            ||| s.in_window(pai_id, period_end, SOURCE_SATELLITE) && c == s.reading_cid(pai_id, period_end, SOURCE_SATELLITE)
            ||| s.in_window(pai_id, period_end, SOURCE_GOVT_LAB) && c == s.reading_cid(pai_id, period_end, SOURCE_GOVT_LAB)
        },
        forall|i: int| 0 <= i < s.present_cids(pai_id, period_end).len() ==> {
            let c = #[trigger] s.present_cids(pai_id, period_end)[i];
            ||| s.present(pai_id, period_end, SOURCE_IOT) && c == s.reading_cid(pai_id, period_end, SOURCE_IOT)
            ||| s.present(pai_id, period_end, SOURCE_SATELLITE) && c == s.reading_cid(pai_id, period_end, SOURCE_SATELLITE)
            ||| s.present(pai_id, period_end, SOURCE_GOVT_LAB) && c == s.reading_cid(pai_id, period_end, SOURCE_GOVT_LAB)
        },
{
    let w = s.windowed_cids(pai_id, period_end);
    let p = s.present_cids(pai_id, period_end);
    let c0 = s.reading_cid(pai_id, period_end, SOURCE_IOT);
    let c1 = s.reading_cid(pai_id, period_end, SOURCE_SATELLITE);
    let c2 = s.reading_cid(pai_id, period_end, SOURCE_GOVT_LAB);
    let wi = |x: u8| s.in_window(pai_id, period_end, x);
    let pr = |x: u8| s.present(pai_id, period_end, x);
    let w0: Seq<Seq<u8>> = if wi(SOURCE_IOT) { seq![c0] } else { Seq::empty() };
    let w1: Seq<Seq<u8>> = if wi(SOURCE_SATELLITE) { seq![c1] } else { Seq::empty() };
    let w2: Seq<Seq<u8>> = if wi(SOURCE_GOVT_LAB) { seq![c2] } else { Seq::empty() };
    let p0: Seq<Seq<u8>> = if pr(SOURCE_IOT) { seq![c0] } else { Seq::empty() };
    let p1: Seq<Seq<u8>> = if pr(SOURCE_SATELLITE) { seq![c1] } else { Seq::empty() };
    let p2: Seq<Seq<u8>> = if pr(SOURCE_GOVT_LAB) { seq![c2] } else { Seq::empty() };
    assert(w == w0 + w1 + w2);
    assert(p == p0 + p1 + p2);
    assert forall|i: int| 0 <= i < w.len() implies {
        let c = #[trigger] w[i];
        ||| s.in_window(pai_id, period_end, SOURCE_IOT) && c == c0
        ||| s.in_window(pai_id, period_end, SOURCE_SATELLITE) && c == c1
        ||| s.in_window(pai_id, period_end, SOURCE_GOVT_LAB) && c == c2
    } by {
        if i < w0.len() {
            assert(w[i] == w0[i]);
        } else if i < w0.len() + w1.len() {
            assert(w[i] == w1[i - w0.len()]);
        } else {
            assert(w[i] == w2[i - w0.len() - w1.len()]);
        }
    }
    assert forall|i: int| 0 <= i < p.len() implies {
        let c = #[trigger] p[i];
        ||| s.present(pai_id, period_end, SOURCE_IOT) && c == c0
        ||| s.present(pai_id, period_end, SOURCE_SATELLITE) && c == c1
        ||| s.present(pai_id, period_end, SOURCE_GOVT_LAB) && c == c2
    } by {
        if i < p0.len() {
            assert(p[i] == p0[i]);
        } else if i < p0.len() + p1.len() {
            assert(p[i] == p1[i - p0.len()]);
        } else {
            assert(p[i] == p2[i - p0.len() - p1.len()]);
        }
    }
    if valid_source(source) && s.in_window(pai_id, period_end, source) {
        if source == SOURCE_IOT {
            assert(w[0] == c0);
        } else if source == SOURCE_SATELLITE {
            assert(w[w0.len() as int] == c1);
        } else {
            assert(w[(w0.len() + w1.len()) as int] == c2);
        }
    }
    if valid_source(source) && s.present(pai_id, period_end, source) {
        if source == SOURCE_IOT {
            assert(p[0] == c0);
        } else if source == SOURCE_SATELLITE {
            assert(p[p0.len() as int] == c1);
        } else {
            assert(p[(p0.len() + p1.len()) as int] == c2);
        }
    }
}

/// Byte strings in ascending lexicographic order.
pub open spec fn lex_sorted(s: Seq<Seq<u8>>) -> bool {
    forall|i: int, j: int| 0 <= i < j < s.len() ==> !lex_gt(#[trigger] s[i], #[trigger] s[j])
}

/// Two ascending sequences with the same elements are equal.
proof fn lemma_sorted_unique(u: Seq<Seq<u8>>, v: Seq<Seq<u8>>)
    requires
        lex_sorted(u),
        lex_sorted(v),
        u.to_multiset() =~= v.to_multiset(),
    ensures
        u == v,
    decreases u.len(),
{
    broadcast use vstd::seq_lib::group_to_multiset_ensures;

    assert(u.len() == u.to_multiset().len());
    assert(v.len() == v.to_multiset().len());
    if u.len() == 0 {
        assert(u =~= v);
    } else {
        assert(u.contains(u[0]));
        assert(u.to_multiset().count(u[0]) > 0);
        assert(v.contains(u[0]));
        let j = choose|j: int| 0 <= j < v.len() && v[j] == u[0];
        assert(v.contains(v[0]));
        assert(v.to_multiset().count(v[0]) > 0);
        assert(u.contains(v[0]));
        let k = choose|k: int| 0 <= k < u.len() && u[k] == v[0];
        lemma_lex_gt_asymmetric(u[0], u[0]);
        lemma_lex_gt_asymmetric(v[0], v[0]);
        if j > 0 {
            assert(!lex_gt(v[0], v[j]));
        }
        if k > 0 {
            assert(!lex_gt(u[0], u[k]));
        }
        lemma_lex_total(u[0], v[0]);
        let u1 = u.remove(0);
        let v1 = v.remove(0);
        assert(u1.to_multiset() =~= u.to_multiset().remove(u[0]));
        assert(v1.to_multiset() =~= v.to_multiset().remove(v[0]));
        assert forall|a: int, b: int| 0 <= a < b < u1.len() implies !lex_gt(#[trigger] u1[a], #[trigger] u1[b]) by {
            assert(u1[a] == u[a + 1] && u1[b] == u[b + 1]);
        }
        assert forall|a: int, b: int| 0 <= a < b < v1.len() implies !lex_gt(#[trigger] v1[a], #[trigger] v1[b]) by {
            assert(v1[a] == v[a + 1] && v1[b] == v[b + 1]);
        }
        lemma_sorted_unique(u1, v1);
        assert forall|i: int| 0 <= i < u.len() implies u[i] == v[i] by {
            if i > 0 {
                assert(u[i] == u1[i - 1] && v[i] == v1[i - 1]);
            }
        }
        assert(u =~= v);
    }
}

/// The MRV root does not depend on the order in which the readings of a
/// period arrive: two lists of at most three CIDs with the same elements
/// sort alike, so their roots are hashed from the same bytes.
pub proof fn lemma_mrv_root_order_independent(
    s: Seq<Seq<u8>>,
    t: Seq<Seq<u8>>,
    pai_id: Seq<u8>,
    period_end: u64,
    semantic_discrepancy: bool,
)
    requires
        s.len() <= 3,
        t.len() <= 3,
        s.to_multiset() =~= t.to_multiset(),
    ensures
        lex_sort3(s) == lex_sort3(t),
        mrv_root_preimage(pai_id, period_end, s, semantic_discrepancy) == mrv_root_preimage(
            pai_id,
            period_end,
            t,
            semantic_discrepancy,
        ),
{
    broadcast use vstd::seq_lib::group_to_multiset_ensures;

    lemma_lex_sort3_sorted(s);
    lemma_lex_sort3_sorted(t);
    assert(s.len() == s.to_multiset().len());
    assert(t.len() == t.to_multiset().len());
    lemma_sorted_unique(lex_sort3(s), lex_sort3(t));
}

/// Byte strings neither of which sorts after the other are equal.
pub proof fn lemma_lex_total(a: Seq<u8>, b: Seq<u8>)
    requires
        !lex_gt(a, b),
        !lex_gt(b, a),
    ensures
        a == b,
    decreases a.len(),
{
    if a.len() > 0 && b.len() > 0 {
        lemma_lex_total(a.drop_first(), b.drop_first());
        assert(a =~= seq![a[0]] + a.drop_first());
        assert(b =~= seq![b[0]] + b.drop_first());
    } else {
        assert(a =~= b);
    }
}

} // verus!
