//! Integers and ratios of any size, held as plain bytes.

use crate::primitives::types::{
    be_value, lemma_be_value_ignores_leading_zeros, lemma_be_value_upper_bound,
};
use vstd::arithmetic::power::{lemma_pow_positive, pow};
use vstd::prelude::*;
use vstd::slice::slice_subrange;
use vstd::slice::slice_to_vec;

verus! {

/// Whether a big-endian byte string is the shortest one for its number: at
/// least one byte, and no zero byte in front of another byte.
pub open spec fn canonical(bytes: Seq<u8>) -> bool {
    bytes.len() >= 1 && (bytes.len() == 1 || bytes[0] != 0)
}

/// The sign of an integer.
#[derive(Clone, Copy, Debug, PartialEq, Eq, Structural)]
pub enum Sign {
    /// Less than zero.
    Minus,
    /// Zero.
    NoSign,
    /// Greater than zero.
    Plus,
}

/// Whether a sign goes with a magnitude: no sign for zero and for zero only.
pub open spec fn sign_fits(sign: Sign, magnitude: nat) -> bool {
    (sign is NoSign) == (magnitude == 0)
}

/// The integer with this sign and magnitude.
pub open spec fn signed_value(sign: Sign, magnitude: nat) -> int {
    if sign is Minus {
        -(magnitude as int)
    } else {
        magnitude as int
    }
}

/// The magnitude of an integer.
pub open spec fn magnitude_of(value: int) -> nat {
    if value < 0 {
        (-value) as nat
    } else {
        value as nat
    }
}

/// Whether two numbers have no common divisor but one.
pub open spec fn coprime(a: nat, b: nat) -> bool {
    forall|g: nat, x: nat, y: nat| #![trigger g * x, g * y] a == g * x && b == g * y ==> g == 1
}

/// A byte string with a first byte that is not zero stands for at least
/// that byte's worth at its place.
pub proof fn lemma_be_value_lower_bound(bytes: Seq<u8>)
    requires
        bytes.len() >= 1,
    ensures
        be_value(bytes) >= bytes[0] * pow(256, (bytes.len() - 1) as nat),
    decreases bytes.len(),
{
    if bytes.len() == 1 {
        assert(bytes.drop_last().len() == 0);
        assert(be_value(bytes.drop_last()) == 0);
        vstd::arithmetic::power::lemma_pow0(256);
    } else {
        let shorter = bytes.drop_last();
        lemma_be_value_lower_bound(shorter);
        let e = (shorter.len() - 1) as nat;
        assert(pow(256, (e + 1) as nat) == 256 * pow(256, e)) by {
            reveal(pow);
        }
        assert(shorter[0] == bytes[0]);
        assert(be_value(shorter) * 256 >= bytes[0] * (256 * pow(256, e))) by (nonlinear_arith)
            requires
                be_value(shorter) >= bytes[0] * pow(256, e),
        ;
    }
}

/// The only shortest byte string for zero is the single zero byte.
pub proof fn lemma_canonical_zero(bytes: Seq<u8>)
    requires
        canonical(bytes),
    ensures
        be_value(bytes) == 0 <==> bytes.len() == 1 && bytes[0] == 0,
{
    lemma_be_value_lower_bound(bytes);
    lemma_pow_positive(256, (bytes.len() - 1) as nat);
    if bytes.len() == 1 {
        assert(bytes.drop_last().len() == 0);
        assert(be_value(bytes.drop_last()) == 0);
    } else {
        assert(bytes[0] * pow(256, (bytes.len() - 1) as nat) > 0) by (nonlinear_arith)
            requires
                bytes[0] > 0,
                pow(256, (bytes.len() - 1) as nat) > 0,
        ;
    }
}

/// Shortest bytes of length one stand for their byte, longer ones for 256 at
/// least.
pub proof fn lemma_canonical_small(bytes: Seq<u8>)
    requires
        canonical(bytes),
    ensures
        bytes.len() == 1 ==> be_value(bytes) == bytes[0],
        bytes.len() > 1 ==> be_value(bytes) >= 256,
{
    if bytes.len() == 1 {
        assert(bytes.drop_last().len() == 0);
        assert(be_value(bytes.drop_last()) == 0);
    } else {
        lemma_be_value_lower_bound(bytes);
        let place = pow(256, (bytes.len() - 1) as nat);
        vstd::arithmetic::power::lemma_pow1(256);
        vstd::arithmetic::power::lemma_pow_increases(256, 1, (bytes.len() - 1) as nat);
        assert(bytes[0] * place >= place) by (nonlinear_arith)
            requires
                bytes[0] >= 1,
                place >= 0,
        ;
    }
}

/// Byte strings of one length that stand for one number are the same.
pub proof fn lemma_same_length_same_bytes(a: Seq<u8>, b: Seq<u8>)
    requires
        a.len() == b.len(),
        be_value(a) == be_value(b),
    ensures
        a == b,
    decreases a.len(),
{
    if a.len() > 0 {
        assert(be_value(a.drop_last()) == be_value(b.drop_last()) && a.last() == b.last());
        lemma_same_length_same_bytes(a.drop_last(), b.drop_last());
        assert(a =~= a.drop_last().push(a.last()));
        assert(b =~= b.drop_last().push(b.last()));
    }
    assert(a =~= b);
}

/// A number has one shortest byte string.
pub proof fn lemma_canonical_unique(a: Seq<u8>, b: Seq<u8>)
    requires
        canonical(a),
        canonical(b),
        be_value(a) == be_value(b),
    ensures
        a == b,
{
    if a.len() < b.len() {
        lemma_be_value_upper_bound(a);
        lemma_be_value_lower_bound(b);
        vstd::arithmetic::power::lemma_pow_increases(256, a.len(), (b.len() - 1) as nat);
        let place = pow(256, (b.len() - 1) as nat);
        assert(b[0] * place >= place) by (nonlinear_arith)
            requires
                b[0] >= 1,
                place >= 0,
        ;
    } else if b.len() < a.len() {
        lemma_be_value_upper_bound(b);
        lemma_be_value_lower_bound(a);
        vstd::arithmetic::power::lemma_pow_increases(256, b.len(), (a.len() - 1) as nat);
        let place = pow(256, (a.len() - 1) as nat);
        assert(a[0] * place >= place) by (nonlinear_arith)
            requires
                a[0] >= 1,
                place >= 0,
        ;
    } else {
        lemma_same_length_same_bytes(a, b);
    }
}

/// Tells whether two byte strings are the same.
pub fn same_bytes(a: &[u8], b: &[u8]) -> (same: bool)
    ensures
        same == (a@ == b@),
{
    if a.len() != b.len() {
        return false;
    }
    let mut index: usize = 0;
    while index < a.len()
        invariant
            a@.len() == b@.len(),
            index <= a@.len(),
            forall|i: int| 0 <= i < index ==> a@[i] == b@[i],
        decreases a@.len() - index,
    {
        if a[index] != b[index] {
            return false;
        }
        index += 1;
    }
    assert(a@ =~= b@);
    true
}

/// An unsigned integer of any size.
#[derive(Debug, PartialEq, Eq)]
pub struct BigUint {
    bytes: Vec<u8>,
}

impl View for BigUint {
    type V = nat;

    closed spec fn view(&self) -> nat {
        be_value(self.bytes@)
    }
}

/// The shortest big-endian bytes of `n`.
fn be_digits(n: u64) -> (bytes: Vec<u8>)
    ensures
        canonical(bytes@),
        be_value(bytes@) == n,
    decreases n,
{
    if n < 256 {
        let bytes = vec![n as u8];
        assert(bytes@.drop_last().len() == 0);
        assert(be_value(bytes@.drop_last()) == 0);
        bytes
    } else {
        let mut bytes = be_digits(n / 256);
        let ghost before = bytes@;
        proof {
            lemma_canonical_zero(before);
        }
        bytes.push((n % 256) as u8);
        assert(bytes@.drop_last() =~= before);
        bytes
    }
}

impl BigUint {
    #[verifier::type_invariant]
    spec fn is_canonical(self) -> bool {
        canonical(self.bytes@)
    }

    /// The integer equal to `n`.
    pub fn from_u64(n: u64) -> (value: Self)
        ensures
            value@ == n,
    {
        BigUint { bytes: be_digits(n) }
    }

    /// The integer that the bytes stand for when read most significant byte
    /// first. No bytes stand for zero.
    pub fn from_bytes_be(bytes: &[u8]) -> (value: Self)
        ensures
            value@ == be_value(bytes@),
    {
        let total = bytes.len();
        if total == 0 {
            let zero = vec![0u8];
            assert(zero@.drop_last().len() == 0);
            assert(be_value(zero@.drop_last()) == 0);
            return BigUint { bytes: zero };
        }
        let mut lead: usize = 0;
        while lead + 1 < total && bytes[lead] == 0
            invariant
                total == bytes@.len(),
                lead < total,
                forall|i: int| 0 <= i < lead ==> bytes@[i] == 0,
            decreases total - lead,
        {
            lead += 1;
        }
        let kept = slice_to_vec(slice_subrange(bytes, lead, total));
        proof {
            assert(bytes@ =~= Seq::new(lead as nat, |i: int| 0u8) + kept@);
            lemma_be_value_ignores_leading_zeros(lead as nat, kept@);
        }
        BigUint { bytes: kept }
    }

    /// The shortest bytes that stand for the integer, most significant byte
    /// first; zero is a single zero byte.
    pub fn to_bytes_be(&self) -> (bytes: Vec<u8>)
        ensures
            be_value(bytes@) == self@,
            canonical(bytes@),
    {
        proof {
            use_type_invariant(self);
        }
        slice_to_vec(self.bytes.as_slice())
    }

    /// A copy of the integer.
    pub fn duplicate(&self) -> (copy: Self)
        ensures
            copy@ == self@,
    {
        proof {
            use_type_invariant(self);
        }
        BigUint { bytes: slice_to_vec(self.bytes.as_slice()) }
    }

    /// Whether the integer is zero.
    pub fn is_zero(&self) -> (zero: bool)
        ensures
            zero == (self@ == 0),
    {
        proof {
            use_type_invariant(self);
            lemma_canonical_zero(self.bytes@);
        }
        self.bytes.len() == 1 && self.bytes[0] == 0
    }

    /// Tells whether two integers are the same number.
    pub fn equals(&self, other: &Self) -> (equal: bool)
        ensures
            equal == (self@ == other@),
    {
        proof {
            use_type_invariant(self);
            use_type_invariant(other);
            if self@ == other@ {
                lemma_canonical_unique(self.bytes@, other.bytes@);
            }
        }
        same_bytes(self.bytes.as_slice(), other.bytes.as_slice())
    }

    /// The integer as a single byte, if it is below 256.
    pub fn to_small(&self) -> (small: Option<u8>)
        ensures
            small is Some <==> self@ < 256,
            small is Some ==> small->0 == self@,
    {
        proof {
            use_type_invariant(self);
            lemma_canonical_small(self.bytes@);
        }
        if self.bytes.len() == 1 {
            Some(self.bytes[0])
        } else {
            None
        }
    }

    /// The integer that shortest bytes stand for.
    pub(crate) fn from_canonical(bytes: Vec<u8>) -> (value: Self)
        requires
            canonical(bytes@),
        ensures
            value@ == be_value(bytes@),
    {
        BigUint { bytes }
    }

    /// The shortest bytes of the integer.
    pub(crate) fn as_bytes(&self) -> (bytes: &[u8])
        ensures
            be_value(bytes@) == self@,
            canonical(bytes@),
    {
        proof {
            use_type_invariant(self);
        }
        self.bytes.as_slice()
    }
}

impl Clone for BigUint {
    fn clone(&self) -> (copy: Self)
        ensures
            copy@ == self@,
    {
        self.duplicate()
    }
}

/// A signed integer of any size.
#[derive(Debug, PartialEq, Eq)]
pub struct BigInt {
    sign: Sign,
    magnitude: BigUint,
}

impl View for BigInt {
    type V = int;

    closed spec fn view(&self) -> int {
        signed_value(self.sign, self.magnitude@)
    }
}

impl BigInt {
    #[verifier::type_invariant]
    spec fn sign_is_fitting(self) -> bool {
        sign_fits(self.sign, self.magnitude@)
    }

    /// The integer with the given sign and magnitude. No sign makes zero of
    /// any magnitude, and a zero magnitude has no sign.
    pub fn from_biguint(sign: Sign, magnitude: BigUint) -> (value: Self)
        ensures
            value@ == (if sign is NoSign {
                0
            } else {
                signed_value(sign, magnitude@)
            }),
    {
        match sign {
            Sign::NoSign => BigInt { sign: Sign::NoSign, magnitude: BigUint::from_u64(0) },
            _ => {
                if magnitude.is_zero() {
                    BigInt { sign: Sign::NoSign, magnitude }
                } else {
                    BigInt { sign, magnitude }
                }
            },
        }
    }

    /// The integer equal to `n`.
    pub fn from_u64(n: u64) -> (value: Self)
        ensures
            value@ == n,
    {
        Self::from_biguint(Sign::Plus, BigUint::from_u64(n))
    }

    /// The integer equal to `n`.
    pub fn from_i64(n: i64) -> (value: Self)
        ensures
            value@ == n,
    {
        if n >= 0 {
            Self::from_biguint(Sign::Plus, BigUint::from_u64(n as u64))
        } else {
            let below: u64 = (-(n + 1)) as u64;
            Self::from_biguint(Sign::Minus, BigUint::from_u64(below + 1))
        }
    }

    /// Whether the integer is zero.
    pub fn is_zero(&self) -> (zero: bool)
        ensures
            zero == (self@ == 0),
    {
        proof {
            use_type_invariant(self);
        }
        match self.sign {
            Sign::NoSign => true,
            _ => false,
        }
    }

    /// Tells whether two integers are the same number.
    pub fn equals(&self, other: &Self) -> (equal: bool)
        ensures
            equal == (self@ == other@),
    {
        proof {
            use_type_invariant(self);
            use_type_invariant(other);
        }
        self.sign == other.sign && self.magnitude.equals(&other.magnitude)
    }

    /// Whether the integer is below zero.
    pub fn is_negative(&self) -> (negative: bool)
        ensures
            negative == (self@ < 0),
    {
        proof {
            use_type_invariant(self);
        }
        match self.sign {
            Sign::Minus => true,
            _ => false,
        }
    }

    /// The sign of the integer.
    pub fn sign(&self) -> (sign: Sign)
        ensures
            sign_fits(sign, magnitude_of(self@)),
            sign is Minus <==> self@ < 0,
    {
        proof {
            use_type_invariant(self);
        }
        self.sign
    }

    /// The magnitude of the integer.
    pub fn magnitude(&self) -> (magnitude: &BigUint)
        ensures
            magnitude@ == magnitude_of(self@),
    {
        &self.magnitude
    }

    /// The integer as an unsigned one, unless it is below zero.
    pub fn to_biguint(&self) -> (value: Option<BigUint>)
        ensures
            value is Some <==> self@ >= 0,
            value is Some ==> value->0@ == self@,
    {
        proof {
            use_type_invariant(self);
        }
        match self.sign {
            Sign::Minus => None,
            _ => Some(self.magnitude.duplicate()),
        }
    }

    /// A copy of the integer.
    pub fn duplicate(&self) -> (copy: Self)
        ensures
            copy@ == self@,
    {
        proof {
            use_type_invariant(self);
        }
        BigInt { sign: self.sign, magnitude: self.magnitude.duplicate() }
    }
}

impl Clone for BigInt {
    fn clone(&self) -> (copy: Self)
        ensures
            copy@ == self@,
    {
        self.duplicate()
    }
}

} // verus!
