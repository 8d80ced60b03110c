//! Token amounts of any size: the framework's unsigned big integers, held
//! as big-endian bytes. Arithmetic and comparison go through the
//! framework's `BigUint`; each such item is trusted, with the contract that
//! its source shows.
use vstd::prelude::*;

use multiversx_sc::types::BigUint;
use multiversx_sc_scenario::api::StaticApi;

use crate::bytes::copy_bytes;

verus! {

/// The value of big-endian bytes.
pub open spec fn be_value(s: Seq<u8>) -> nat
    decreases s.len(),
{
    if s.len() == 0 {
        0
    } else {
        (be_value(s.drop_last()) * 256 + s.last()) as nat
    }
}

/// The minimal big-endian bytes of `n` (none for zero).
pub open spec fn min_be(n: nat) -> Seq<u8>
    decreases n,
{
    if n == 0 {
        Seq::empty()
    } else {
        min_be(n / 256).push((n % 256) as u8)
    }
}

/// The minimal bytes of a number read back give the number.
pub proof fn lemma_be_value_min_be(n: nat)
    ensures
        be_value(min_be(n)) == n,
    decreases n,
{
    if n > 0 {
        lemma_be_value_min_be(n / 256);
        let s = min_be(n / 256).push((n % 256) as u8);
        assert(s.drop_last() =~= min_be(n / 256));
        assert((n / 256) * 256 + n % 256 == n) by (nonlinear_arith);
    }
}

/// An unsigned integer of any size.
#[derive(Clone, Debug, PartialEq, Eq)]
pub struct BigAmount {
    bytes: Vec<u8>,
}

impl View for BigAmount {
    type V = nat;

    closed spec fn view(&self) -> nat {
        be_value(self.bytes@)
    }
}

/// Appends the minimal big-endian bytes of `n`.
fn push_min_be(out: &mut Vec<u8>, n: u128)
    ensures
        final(out)@ == old(out)@ + min_be(n as nat),
    decreases n,
{
    if n > 0 {
        push_min_be(out, n / 256);
        out.push((n % 256) as u8);
        assert(final(out)@ =~= old(out)@ + min_be(n as nat));
    } else {
        assert(final(out)@ =~= old(out)@ + min_be(n as nat));
    }
}

impl BigAmount {
    /// Zero.
    pub fn zero() -> (r: Self)
        ensures
            r@ == 0,
    {
        let r = BigAmount { bytes: Vec::new() };
        assert(r.bytes@.len() == 0);
        r
    }

    /// The amount `n`.
    pub fn from_u128(n: u128) -> (r: Self)
        ensures
            r@ == n,
    {
        let mut bytes: Vec<u8> = Vec::new();
        push_min_be(&mut bytes, n);
        proof {
            assert(bytes@ =~= min_be(n as nat));
            lemma_be_value_min_be(n as nat);
        }
        BigAmount { bytes }
    }

    /// The amount whose big-endian bytes are `bytes`.
    pub fn from_be_bytes(bytes: Vec<u8>) -> (r: Self)
        ensures
            r@ == be_value(bytes@),
    {
        BigAmount { bytes }
    }

    /// A second amount of the same value.
    pub fn copy(&self) -> (r: Self)
        ensures
            r@ == self@,
    {
        BigAmount { bytes: copy_bytes(&self.bytes) }
    }

    /// Calls `Add` on the framework's `BigUint`: the sum.
    #[verifier::external_body]
    pub(crate) fn plus(&self, other: &BigAmount) -> (r: BigAmount)
        ensures
            r@ == self@ + other@,
    {
        let sum = BigUint::<StaticApi>::from_bytes_be(&self.bytes) + BigUint::<StaticApi>::from_bytes_be(&other.bytes);
        BigAmount { bytes: sum.to_bytes_be().as_slice().to_vec() }
    }

    /// Calls `Sub` on the framework's `BigUint`, which fails the call when the
    /// result would be negative; here the difference.
    #[verifier::external_body]
    pub(crate) fn minus(&self, other: &BigAmount) -> (r: BigAmount)
        requires
            other@ <= self@,
        ensures
            r@ == self@ - other@,
    {
        let difference = BigUint::<StaticApi>::from_bytes_be(&self.bytes) - BigUint::<StaticApi>::from_bytes_be(&other.bytes);
        BigAmount { bytes: difference.to_bytes_be().as_slice().to_vec() }
    }

    /// Calls `Mul<u64>` on the framework's `BigUint`: the product.
    #[verifier::external_body]
    pub(crate) fn times(&self, factor: u64) -> (r: BigAmount)
        ensures
            r@ == self@ * factor,
    {
        let product = BigUint::<StaticApi>::from_bytes_be(&self.bytes) * factor;
        BigAmount { bytes: product.to_bytes_be().as_slice().to_vec() }
    }

    /// Calls `Div<u64>` on the framework's `BigUint`, which fails the call on
    /// a zero divisor; here the quotient, rounded down.
    #[verifier::external_body]
    pub(crate) fn divided_by(&self, divisor: u64) -> (r: BigAmount)
        requires
            divisor != 0,
        ensures
            r@ == self@ / (divisor as nat),
    {
        let quotient = BigUint::<StaticApi>::from_bytes_be(&self.bytes) / divisor;
        BigAmount { bytes: quotient.to_bytes_be().as_slice().to_vec() }
    }

    /// Calls `PartialOrd::le` on the framework's `BigUint`.
    #[verifier::external_body]
    pub(crate) fn at_most(&self, other: &BigAmount) -> (r: bool)
        ensures
            r == (self@ <= other@),
    {
        BigUint::<StaticApi>::from_bytes_be(&self.bytes) <= BigUint::<StaticApi>::from_bytes_be(&other.bytes)
    }

    /// Calls `BigUint::to_bytes_be`: the minimal big-endian bytes (none for
    /// zero).
    #[verifier::external_body]
    pub(crate) fn to_be_bytes(&self) -> (r: Vec<u8>)
        ensures
            r@ == min_be(self@),
    {
        BigUint::<StaticApi>::from_bytes_be(&self.bytes).to_bytes_be().as_slice().to_vec()
    }

    /// Whether the amount is zero.
    pub fn is_zero(&self) -> (r: bool)
        ensures
            r == (self@ == 0),
    {
        self.at_most(&BigAmount::zero())
    }

    /// Whether the two amounts are equal.
    pub fn same_as(&self, other: &BigAmount) -> (r: bool)
        ensures
            r == (self@ == other@),
    {
        self.at_most(other) && other.at_most(self)
    }
}

} // verus!
