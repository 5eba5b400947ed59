//! Fixed-size byte strings and the 256-bit unsigned integer.

use vstd::prelude::*;

verus! {

/// The number a byte string stands for when read most significant byte
/// first.
pub open spec fn be_value(bytes: Seq<u8>) -> nat
    decreases bytes.len(),
{
    if bytes.len() == 0 {
        0
    } else {
        be_value(bytes.drop_last()) * 256 + bytes.last() as nat
    }
}

/// The `len` bytes that stand for `value` when read most significant byte
/// first; digits that do not fit are dropped from the front.
pub open spec fn be_bytes_of(value: nat, len: nat) -> Seq<u8>
    decreases len,
{
    if len == 0 {
        Seq::empty()
    } else {
        be_bytes_of(value / 256, (len - 1) as nat).push((value % 256) as u8)
    }
}

/// Two to the power of 64.
pub open spec fn limb_base() -> nat {
    0x1_0000_0000_0000_0000
}

/// Two to the power of 256: one more than the largest 256-bit integer.
pub open spec fn uint_modulus() -> nat {
    limb_base() * limb_base() * limb_base() * limb_base()
}

/// The number four 64-bit limbs stand for, least significant limb first.
pub open spec fn limbs_value(limbs: Seq<u64>) -> nat
    recommends
        limbs.len() == 4,
{
    (limbs[0] as nat) + limb_base() * ((limbs[1] as nat) + limb_base() * ((limbs[2] as nat)
        + limb_base() * (limbs[3] as nat)))
}

/// The identifier of a chain on the settlement layer.
#[derive(Clone, Copy, Debug, PartialEq, Eq, Structural)]
pub struct L1ChainId(pub u64);

/// A string of 32 bytes, such as a hash.
#[derive(Clone, Copy, Debug, PartialEq, Eq)]
pub struct B256(pub [u8; 32]);

/// An account address: a string of 20 bytes.
#[derive(Clone, Copy, Debug, PartialEq, Eq)]
pub struct Address(pub [u8; 20]);

/// An unsigned integer of 256 bits, held as four 64-bit limbs, least
/// significant first.
#[derive(Clone, Copy, Debug, PartialEq, Eq)]
pub struct U256 {
    pub limbs: [u64; 4],
}

impl View for B256 {
    type V = Seq<u8>;

    open spec fn view(&self) -> Seq<u8> {
        self.0@
    }
}

impl View for Address {
    type V = Seq<u8>;

    open spec fn view(&self) -> Seq<u8> {
        self.0@
    }
}

impl View for U256 {
    type V = nat;

    open spec fn view(&self) -> nat {
        limbs_value(self.limbs@)
    }
}

impl B256 {
    /// The hash made of these bytes.
    pub fn new(bytes: [u8; 32]) -> (hash: Self)
        ensures
            hash@ == bytes@,
            hash.0 == bytes,
    {
        B256(bytes)
    }

    /// The 32 zero bytes.
    pub fn zero() -> (hash: Self)
        ensures
            hash@ == Seq::new(32, |i: int| 0u8),
    {
        let hash = B256([0u8;32]);
        assert(hash@ =~= Seq::new(32, |i: int| 0u8));
        hash
    }

    /// The bytes of the hash.
    pub fn as_slice(&self) -> (bytes: &[u8])
        ensures
            bytes@ == self@,
            bytes@.len() == 32,
    {
        self.0.as_slice()
    }
}

impl Address {
    /// The address made of these bytes.
    pub fn new(bytes: [u8; 20]) -> (address: Self)
        ensures
            address@ == bytes@,
            address.0 == bytes,
    {
        Address(bytes)
    }

    /// The bytes of the address.
    pub fn as_slice(&self) -> (bytes: &[u8])
        ensures
            bytes@ == self@,
            bytes@.len() == 20,
    {
        self.0.as_slice()
    }
}

impl U256 {
    /// The integer with these limbs, least significant first.
    pub fn from_limbs(limbs: [u64; 4]) -> (value: Self)
        ensures
            value.limbs == limbs,
            value@ == limbs_value(limbs@),
    {
        U256 { limbs }
    }

    /// The limbs of the integer, least significant first.
    pub fn as_limbs(&self) -> (limbs: &[u64; 4])
        ensures
            *limbs == self.limbs,
    {
        &self.limbs
    }

    /// The integer one.
    pub fn one() -> (value: Self)
        ensures
            value@ == 1,
    {
        Self::from_u64(1)
    }

    /// The integer equal to `n`.
    pub fn from_u64(n: u64) -> (value: Self)
        ensures
            value@ == n,
    {
        let limbs: [u64; 4] = [n, 0, 0, 0];
        assert(limb_base() * (0 + limb_base() * (0 + limb_base() * 0)) == 0) by (nonlinear_arith);
        U256 { limbs }
    }
}

/// A 256-bit integer is below two to the power of 256.
pub proof fn lemma_u256_bounded(value: U256)
    ensures
        value@ < limb_base() * limb_base() * limb_base() * limb_base(),
{
    let l0 = value.limbs@[0] as nat;
    let l1 = value.limbs@[1] as nat;
    let l2 = value.limbs@[2] as nat;
    let l3 = value.limbs@[3] as nat;
    let b = limb_base();
    assert(l0 + b * (l1 + b * (l2 + b * l3)) < b * b * b * b) by (nonlinear_arith)
        requires
            l0 < b,
            l1 < b,
            l2 < b,
            l3 < b,
            b > 0,
    ;
}

/// Zero bytes stand for zero.
pub proof fn lemma_be_value_of_zeros(count: nat)
    ensures
        be_value(Seq::new(count, |i: int| 0u8)) == 0,
    decreases count,
{
    if count > 0 {
        lemma_be_value_of_zeros((count - 1) as nat);
        assert(Seq::new(count, |i: int| 0u8).drop_last() =~= Seq::new(
            (count - 1) as nat,
            |i: int| 0u8,
        ));
    }
}

/// Zero bytes in front do not change the number a byte string stands for.
pub proof fn lemma_be_value_ignores_leading_zeros(count: nat, bytes: Seq<u8>)
    ensures
        be_value(Seq::new(count, |i: int| 0u8) + bytes) == be_value(bytes),
    decreases bytes.len(),
{
    let padded = Seq::new(count, |i: int| 0u8) + bytes;
    if bytes.len() == 0 {
        assert(padded =~= Seq::new(count, |i: int| 0u8));
        lemma_be_value_of_zeros(count);
    } else {
        lemma_be_value_ignores_leading_zeros(count, bytes.drop_last());
        assert(padded.drop_last() =~= Seq::new(count, |i: int| 0u8) + bytes.drop_last());
    }
}

/// The bytes of a number have the length asked for.
pub proof fn lemma_be_bytes_len(value: nat, len: nat)
    ensures
        be_bytes_of(value, len).len() == len,
    decreases len,
{
    if len > 0 {
        lemma_be_bytes_len(value / 256, (len - 1) as nat);
    }
}

/// Reading back the bytes written for a number gives the number, up to the
/// digits that did not fit.
pub proof fn lemma_be_value_of_be_bytes(value: nat, len: nat)
    ensures
        be_value(be_bytes_of(value, len)) == value % (vstd::arithmetic::power::pow(
            256,
            len,
        ) as nat),
    decreases len,
{
    let base = vstd::arithmetic::power::pow(256, len);
    vstd::arithmetic::power::lemma_pow_positive(256, len);
    if len == 0 {
        vstd::arithmetic::power::lemma_pow0(256);
    } else {
        let shorter = (len - 1) as nat;
        let below = vstd::arithmetic::power::pow(256, shorter);
        vstd::arithmetic::power::lemma_pow_positive(256, shorter);
        lemma_be_value_of_be_bytes(value / 256, shorter);
        lemma_be_bytes_len(value / 256, shorter);
        let bytes = be_bytes_of(value, len);
        assert(bytes.drop_last() =~= be_bytes_of(value / 256, shorter));
        assert(bytes.last() == (value % 256) as u8);
        assert(base == 256 * below) by {
            reveal(vstd::arithmetic::power::pow);
        }
        // value % (256 * below) == 256 * ((value / 256) % below) + value % 256
        vstd::arithmetic::div_mod::lemma_breakdown(value as int, 256, below);
        assert(value as int % (256 * below) == 256 * ((value as int / 256) % below) + value as int
            % 256);
    }
}

/// A byte string stands for less than 256 to the power of its length.
pub proof fn lemma_be_value_upper_bound(bytes: Seq<u8>)
    ensures
        be_value(bytes) < vstd::arithmetic::power::pow(256, bytes.len()),
    decreases bytes.len(),
{
    if bytes.len() == 0 {
        vstd::arithmetic::power::lemma_pow0(256);
    } else {
        lemma_be_value_upper_bound(bytes.drop_last());
        let below = vstd::arithmetic::power::pow(256, (bytes.len() - 1) as nat);
        assert(vstd::arithmetic::power::pow(256, bytes.len()) == 256 * below) by {
            reveal(vstd::arithmetic::power::pow);
        }
    }
}

/// Two to the power of 256 is 256 to the power of 32.
pub proof fn lemma_uint_modulus_is_power()
    ensures
        uint_modulus() == vstd::arithmetic::power::pow(256, 32),
        limb_base() == vstd::arithmetic::power::pow(256, 8),
{
    let p = |e: nat| vstd::arithmetic::power::pow(256, e);
    assert(p(0) == 1 && p(1) == 256 && p(2) == 256 * p(1) && p(3) == 256 * p(2) && p(4) == 256
        * p(3) && p(5) == 256 * p(4) && p(6) == 256 * p(5) && p(7) == 256 * p(6) && p(8) == 256
        * p(7)) by {
        reveal_with_fuel(vstd::arithmetic::power::pow, 2);
    }
    assert(p(8) == 0x1_0000_0000_0000_0000);
    vstd::arithmetic::power::lemma_pow_adds(256, 8, 8);
    vstd::arithmetic::power::lemma_pow_adds(256, 16, 16);
    let b = limb_base() as int;
    assert(b * b * b * b == (b * b) * (b * b)) by (nonlinear_arith);
}

/// `U256::from_be_slice` of alloy-primitives: the integer that at most 32
/// bytes stand for when read most significant byte first, as its limbs.
/// Longer input makes the outside function panic and is excluded.
#[verifier::external_body]
pub(crate) fn uint_from_be_slice(bytes: &[u8]) -> (limbs: [u64; 4])
    requires
        bytes@.len() <= 32,
    ensures
        limbs_value(limbs@) == be_value(bytes@),
{
    alloy_primitives::U256::from_be_slice(bytes).into_limbs()
}

/// `U256::to_be_bytes` of alloy-primitives: the 32 bytes that stand for the
/// integer with these limbs, most significant byte first.
#[verifier::external_body]
pub(crate) fn uint_to_be_bytes(limbs: [u64; 4]) -> (bytes: [u8; 32])
    ensures
        bytes@ == be_bytes_of(limbs_value(limbs@), 32),
{
    alloy_primitives::U256::from_limbs(limbs).to_be_bytes::<32>()
}

/// `Add::add` of ruint's `Uint`, which alloy-primitives hands on: the sum,
/// wrapping around at two to the power of 256.
#[verifier::external_body]
pub(crate) fn uint_wrapping_add(a: [u64; 4], b: [u64; 4]) -> (sum: [u64; 4])
    ensures
        limbs_value(sum@) == (limbs_value(a@) + limbs_value(b@)) % uint_modulus(),
{
    (alloy_primitives::U256::from_limbs(a) + alloy_primitives::U256::from_limbs(b)).into_limbs()
}

/// `Sub::sub` of ruint's `Uint`: the difference, wrapping around at two to
/// the power of 256.
#[verifier::external_body]
pub(crate) fn uint_wrapping_sub(a: [u64; 4], b: [u64; 4]) -> (difference: [u64; 4])
    ensures
        limbs_value(difference@) as int == (limbs_value(a@) - limbs_value(b@)) % (
        uint_modulus() as int),
{
    (alloy_primitives::U256::from_limbs(a) - alloy_primitives::U256::from_limbs(b)).into_limbs()
}

/// `Div::div` of ruint's `Uint`: the quotient, rounded down. A zero divisor
/// makes the outside function panic and is excluded.
#[verifier::external_body]
pub(crate) fn uint_div(a: [u64; 4], b: [u64; 4]) -> (quotient: [u64; 4])
    requires
        limbs_value(b@) != 0,
    ensures
        limbs_value(quotient@) == limbs_value(a@) / limbs_value(b@),
{
    (alloy_primitives::U256::from_limbs(a) / alloy_primitives::U256::from_limbs(b)).into_limbs()
}

} // verus!
