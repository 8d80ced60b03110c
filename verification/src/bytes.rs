//! Byte-string helpers shared by the contracts: comparison, big-endian
//! encodings and length-prefixed framing.
use vstd::prelude::*;
use vstd::string::StringSliceAdditionalSpecFns;

verus! {

/// Compares two byte strings for equality.
pub fn bytes_eq(a: &[u8], b: &[u8]) -> (r: bool)
    ensures
        r == (a@ == b@),
{
    if a.len() != b.len() {
        return false;
    }
    let mut i: usize = 0;
    while i < a.len()
        invariant
            a@.len() == b@.len(),
            i <= a@.len(),
            forall|j: int| 0 <= j < i ==> a@[j] == b@[j],
        decreases a@.len() - i,
    {
        if a[i] != b[i] {
            return false;
        }
        i = i + 1;
    }
    assert(a@ =~= b@);
    true
}

} // verus!

verus! {

/// The 8-byte big-endian encoding of a `u64`.
pub open spec fn u64_be(n: u64) -> Seq<u8> {
    seq![
        (n >> 56u64) as u8,
        (n >> 48u64) as u8,
        (n >> 40u64) as u8,
        (n >> 32u64) as u8,
        (n >> 24u64) as u8,
        (n >> 16u64) as u8,
        (n >> 8u64) as u8,
        n as u8,
    ]
}

/// The 4-byte big-endian encoding of a `u32`.
pub open spec fn u32_be(n: u32) -> Seq<u8> {
    seq![(n >> 24u32) as u8, (n >> 16u32) as u8, (n >> 8u32) as u8, n as u8]
}

/// `value` preceded by its length as a 4-byte big-endian integer.
pub open spec fn len_prefixed(value: Seq<u8>) -> Seq<u8> {
    u32_be(value.len() as u32) + value
}

/// The all-zero 32-byte address.
pub open spec fn zero_address() -> Seq<u8> {
    Seq::new(32, |i: int| 0u8)
}

/// Appends the big-endian encoding of `n`.
pub fn push_u64_be(out: &mut Vec<u8>, n: u64)
    ensures
        final(out)@ == old(out)@ + u64_be(n),
{
    out.push((n >> 56u64) as u8);
    out.push((n >> 48u64) as u8);
    out.push((n >> 40u64) as u8);
    out.push((n >> 32u64) as u8);
    out.push((n >> 24u64) as u8);
    out.push((n >> 16u64) as u8);
    out.push((n >> 8u64) as u8);
    out.push(n as u8);
    assert(final(out)@ =~= old(out)@ + u64_be(n));
}

/// Appends the big-endian encoding of `n`.
pub fn push_u32_be(out: &mut Vec<u8>, n: u32)
    ensures
        final(out)@ == old(out)@ + u32_be(n),
{
    out.push((n >> 24u32) as u8);
    out.push((n >> 16u32) as u8);
    out.push((n >> 8u32) as u8);
    out.push(n as u8);
    assert(final(out)@ =~= old(out)@ + u32_be(n));
}

/// Appends all of `src` to `out`.
pub fn push_bytes(out: &mut Vec<u8>, src: &[u8])
    ensures
        final(out)@ == old(out)@ + src@,
{
    let mut i: usize = 0;
    while i < src.len()
        invariant
            i <= src@.len(),
            out@ == old(out)@ + src@.subrange(0, i as int),
        decreases src@.len() - i,
    {
        out.push(src[i]);
        i = i + 1;
        assert(out@ =~= old(out)@ + src@.subrange(0, i as int));
    }
    assert(src@.subrange(0, src@.len() as int) =~= src@);
}

/// A copy of `src`.
pub fn copy_bytes(src: &[u8]) -> (r: Vec<u8>)
    ensures
        r@ == src@,
{
    let mut r: Vec<u8> = Vec::new();
    push_bytes(&mut r, src);
    assert(r@ =~= src@);
    r
}

/// Whether `a` is the all-zero 32-byte address.
pub fn is_zero_address(a: &[u8]) -> (r: bool)
    ensures
        r == (a@ == zero_address()),
{
    if a.len() != 32 {
        return false;
    }
    let mut i: usize = 0;
    while i < 32
        invariant
            a@.len() == 32,
            i <= 32,
            forall|j: int| 0 <= j < i ==> a@[j] == 0u8,
        decreases 32 - i,
    {
        if a[i] != 0 {
            return false;
        }
        i = i + 1;
    }
    assert(a@ =~= zero_address());
    true
}

/// A fresh all-zero 32-byte address.
pub fn new_zero_address() -> (r: Vec<u8>)
    ensures
        r@ == zero_address(),
{
    let mut r: Vec<u8> = Vec::new();
    let mut i: usize = 0;
    while i < 32
        invariant
            i <= 32,
            r@ == Seq::new(i as nat, |j: int| 0u8),
        decreases 32 - i,
    {
        r.push(0u8);
        i = i + 1;
        assert(r@ =~= Seq::new(i as nat, |j: int| 0u8));
    }
    r
}

/// Whether `b` contains the byte `x`.
pub fn contains_byte(b: &[u8], x: u8) -> (r: bool)
    ensures
        r == b@.contains(x),
{
    let mut i: usize = 0;
    while i < b.len()
        invariant
            i <= b@.len(),
            forall|j: int| 0 <= j < i ==> b@[j] != x,
        decreases b@.len() - i,
    {
        if b[i] == x {
            assert(b@[i as int] == x);
            return true;
        }
        i = i + 1;
    }
    false
}

/// `needle` occurs in `hay` starting at position `i`.
pub open spec fn occurs_at(hay: Seq<u8>, needle: Seq<u8>, i: int) -> bool {
    0 <= i && i + needle.len() <= hay.len() && hay.subrange(i, i + needle.len()) == needle
}

/// `needle` occurs somewhere in `hay`.
pub open spec fn occurs_in(hay: Seq<u8>, needle: Seq<u8>) -> bool {
    exists|i: int| occurs_at(hay, needle, i)
}

/// Whether `needle` occurs in `hay`.
pub fn contains_bytes(hay: &[u8], needle: &[u8]) -> (r: bool)
    ensures
        r == occurs_in(hay@, needle@),
{
    if needle.len() == 0 {
        assert(hay@.subrange(0, 0) =~= needle@);
        assert(occurs_at(hay@, needle@, 0));
        return true;
    }
    if needle.len() > hay.len() {
        return false;
    }
    let last = hay.len() - needle.len();
    let mut i: usize = 0;
    while i <= last
        invariant
            last == hay@.len() - needle@.len(),
            hay@.len() == hay.len(),
            needle@.len() == needle.len(),
            needle@.len() > 0,
            i <= last + 1,
            forall|j: int| 0 <= j < i ==> !occurs_at(hay@, needle@, j),
        decreases last + 1 - i,
    {
        let mut k: usize = 0;
        let mut same = true;
        while k < needle.len()
            invariant
                i <= last,
                last == hay@.len() - needle@.len(),
                i + needle@.len() <= hay@.len(),
                hay@.len() == hay.len(),
                needle@.len() == needle.len(),
                k <= needle@.len(),
                same == (forall|m: int| 0 <= m < k ==> hay@[i + m] == needle@[m]),
            decreases needle@.len() - k,
        {
            if hay[i + k] != needle[k] {
                same = false;
            }
            k = k + 1;
        }
        if same {
            assert(hay@.subrange(i as int, i + needle@.len()) =~= needle@);
            assert(occurs_at(hay@, needle@, i as int));
            return true;
        }
        assert(!occurs_at(hay@, needle@, i as int)) by {
            if occurs_at(hay@, needle@, i as int) {
                let m = choose|m: int| 0 <= m < needle@.len() && hay@[i + m] != needle@[m];
                assert(hay@.subrange(i as int, i + needle@.len())[m] == hay@[i + m]);
            }
        }
        i = i + 1;
    }
    assert forall|j: int| !occurs_at(hay@, needle@, j) by {
        if 0 <= j < i {
        }
    }
    false
}

/// The encoding of `n` is injective: distinct integers have distinct keys.
pub proof fn lemma_u64_be_injective(a: u64, b: u64)
    requires
        u64_be(a) == u64_be(b),
    ensures
        a == b,
{
    assert(u64_be(a)[0] == u64_be(b)[0]);
    assert(u64_be(a)[1] == u64_be(b)[1]);
    assert(u64_be(a)[2] == u64_be(b)[2]);
    assert(u64_be(a)[3] == u64_be(b)[3]);
    assert(u64_be(a)[4] == u64_be(b)[4]);
    assert(u64_be(a)[5] == u64_be(b)[5]);
    assert(u64_be(a)[6] == u64_be(b)[6]);
    assert(u64_be(a)[7] == u64_be(b)[7]);
    assert(a == b) by (bit_vector)
        requires
            (a >> 56u64) as u8 == (b >> 56u64) as u8,
            (a >> 48u64) as u8 == (b >> 48u64) as u8,
            (a >> 40u64) as u8 == (b >> 40u64) as u8,
            (a >> 32u64) as u8 == (b >> 32u64) as u8,
            (a >> 24u64) as u8 == (b >> 24u64) as u8,
            (a >> 16u64) as u8 == (b >> 16u64) as u8,
            (a >> 8u64) as u8 == (b >> 8u64) as u8,
            a as u8 == b as u8,
    ;
}


/// The storage key of a pair: each part in the framework's nested encoding
/// (4-byte big-endian length, then the bytes).
pub open spec fn key2(a: Seq<u8>, b: Seq<u8>) -> Seq<u8> {
    len_prefixed(a) + len_prefixed(b)
}

/// The storage key of a triple, encoded as `key2` does.
pub open spec fn key3(a: Seq<u8>, b: Seq<u8>, c: Seq<u8>) -> Seq<u8> {
    len_prefixed(a) + len_prefixed(b) + len_prefixed(c)
}

pub fn make_key2(a: &[u8], b: &[u8]) -> (r: Vec<u8>)
    ensures
        r@ == key2(a@, b@),
{
    let mut r: Vec<u8> = Vec::new();
    push_u32_be(&mut r, a.len() as u32);
    push_bytes(&mut r, a);
    push_u32_be(&mut r, b.len() as u32);
    push_bytes(&mut r, b);
    assert(r@ =~= key2(a@, b@));
    r
}

pub fn make_key3(a: &[u8], b: &[u8], c: &[u8]) -> (r: Vec<u8>)
    ensures
        r@ == key3(a@, b@, c@),
{
    let mut r: Vec<u8> = Vec::new();
    push_u32_be(&mut r, a.len() as u32);
    push_bytes(&mut r, a);
    push_u32_be(&mut r, b.len() as u32);
    push_bytes(&mut r, b);
    push_u32_be(&mut r, c.len() as u32);
    push_bytes(&mut r, c);
    assert(r@ =~= key3(a@, b@, c@));
    r
}

/// The bytes of a string literal.
pub open spec fn lit(s: &str) -> Seq<u8> {
    s.spec_bytes()
}

/// The bytes of an ASCII literal are its characters, one byte each.
pub proof fn lemma_ascii_lit(s: &str)
    requires
        vstd::string::is_ascii(s),
    ensures
        lit(s).len() == s@.len(),
        forall|i: int| 0 <= i < s@.len() ==> #[trigger] lit(s)[i] == s@[i] as u8,
{
    broadcast use vstd::string::is_ascii_spec_bytes;
}

/// The 8-byte big-endian length of `value`, then `value`.
pub open spec fn len64_prefixed(value: Seq<u8>) -> Seq<u8> {
    u64_be(value.len() as u64) + value
}

/// Appends `value` preceded by its length as an 8-byte big-endian integer.
pub fn push_len64_prefixed(out: &mut Vec<u8>, value: &[u8])
    ensures
        final(out)@ == old(out)@ + len64_prefixed(value@),
{
    push_u64_be(out, value.len() as u64);
    push_bytes(out, value);
    assert(final(out)@ =~= old(out)@ + len64_prefixed(value@));
}

} // verus!
