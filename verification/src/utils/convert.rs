//! Conversions between byte strings, hashes, addresses and integers.

use crate::primitives::types::{
    be_bytes_of, be_value, lemma_be_bytes_len, lemma_be_value_ignores_leading_zeros,
    lemma_be_value_of_be_bytes, lemma_be_value_upper_bound, lemma_u256_bounded,
    lemma_uint_modulus_is_power, limb_base, uint_from_be_slice, uint_modulus, uint_to_be_bytes,
    Address, B256, U256,
};
use crate::utils::bignum::{coprime, lemma_be_value_lower_bound, BigInt, BigUint, Sign};
use crate::utils::decimal::{
    big_pow10, max_spec, normalized_spec, pow10, ratio_mul_int, ratio_round, ratio_to_integer,
    round_half_up, trailing_zeros_within, with_scale_spec, BigDecimal, DecimalView, Ratio,
};
use vstd::arithmetic::power::{lemma_pow_increases, lemma_pow_positive, pow};
use vstd::prelude::*;
use vstd::slice::slice_to_vec;

verus! {

/// Whether a byte string can be split into chunks of 32 bytes with nothing
/// left over.
pub open spec fn chunkable(bytes: Seq<u8>) -> bool {
    bytes.len() % 32 == 0
}

/// The `index`-th chunk of 32 bytes of a byte string.
pub open spec fn chunk_at(bytes: Seq<u8>, index: int) -> Seq<u8> {
    bytes.subrange(32 * index, 32 * index + 32)
}

/// `count` zero bytes.
pub open spec fn zeros(count: nat) -> Seq<u8> {
    Seq::new(count, |i: int| 0u8)
}

/// Whether every byte is zero.
pub open spec fn all_zero(bytes: Seq<u8>) -> bool {
    forall|i: int| 0 <= i < bytes.len() ==> bytes[i] == 0
}

/// Whether the bytes can be split into chunks of 32 bytes with nothing left
/// over. Callers that must not go on with other input test this first.
pub fn ensure_chunkable(bytes: &[u8]) -> (ok: bool)
    ensures
        ok == chunkable(bytes@),
{
    bytes.len() % 32 == 0
}

/// Copies 32 bytes, beginning at `start`, into an array.
fn chunk_from(bytes: &[u8], start: usize) -> (chunk: [u8; 32])
    requires
        start + 32 <= bytes@.len(),
    ensures
        chunk@ == bytes@.subrange(start as int, start + 32),
{
    let total = bytes.len();
    let mut chunk = [0u8;32];
    let mut offset: usize = 0;
    while offset < 32
        invariant
            offset <= 32,
            total == bytes@.len(),
            start + 32 <= total,
            forall|j: int| 0 <= j < offset ==> chunk@[j] == bytes@[start + j],
        decreases 32 - offset,
    {
        chunk[offset] = bytes[start + offset];
        offset += 1;
    }
    assert(chunk@ =~= bytes@.subrange(start as int, start + 32));
    chunk
}

/// Copies 20 bytes, beginning at `start`, into an address.
fn address_from(bytes: &[u8], start: usize) -> (address: Address)
    requires
        start + 20 <= bytes@.len(),
    ensures
        address@ == bytes@.subrange(start as int, start + 20),
{
    let total = bytes.len();
    let mut raw = [0u8;20];
    let mut offset: usize = 0;
    while offset < 20
        invariant
            offset <= 20,
            total == bytes@.len(),
            start + 20 <= total,
            forall|j: int| 0 <= j < offset ==> raw@[j] == bytes@[start + j],
        decreases 20 - offset,
    {
        raw[offset] = bytes[start + offset];
        offset += 1;
    }
    assert(raw@ =~= bytes@.subrange(start as int, start + 20));
    Address::new(raw)
}

/// Splits bytes into chunks of 32 bytes, in order. The length of the input
/// must be a multiple of 32.
pub fn bytes_to_chunks(bytes: &[u8]) -> (chunks: Vec<[u8; 32]>)
    requires
        chunkable(bytes@),
    ensures
        chunks@.len() * 32 == bytes@.len(),
        forall|i: int| 0 <= i < chunks@.len() ==> (#[trigger] chunks@[i])@ == chunk_at(bytes@, i),
{
    let total = bytes.len();
    let mut chunks: Vec<[u8; 32]> = Vec::new();
    let mut start: usize = 0;
    while start < total
        invariant
            total == bytes@.len(),
            total % 32 == 0,
            start <= total,
            start % 32 == 0,
            chunks@.len() * 32 == start,
            forall|i: int|
                0 <= i < chunks@.len() ==> (#[trigger] chunks@[i])@ == chunk_at(bytes@, i),
        decreases total - start,
    {
        let chunk = chunk_from(bytes, start);
        chunks.push(chunk);
        start += 32;
    }
    chunks
}

/// Turns chunks of 32 bytes into hashes, one for one.
pub fn be_chunks_to_h256_words(chunks: Vec<[u8; 32]>) -> (words: Vec<B256>)
    ensures
        words@.len() == chunks@.len(),
        forall|i: int| 0 <= i < words@.len() ==> (#[trigger] words@[i])@ == chunks@[i]@,
{
    let mut words: Vec<B256> = Vec::new();
    let mut index: usize = 0;
    while index < chunks.len()
        invariant
            index <= chunks@.len(),
            words@.len() == index,
            forall|i: int| 0 <= i < words@.len() ==> (#[trigger] words@[i])@ == chunks@[i]@,
        decreases chunks@.len() - index,
    {
        words.push(B256::new(chunks[index]));
        index += 1;
    }
    words
}

/// Pads an address on the left with twelve zero bytes.
pub fn address_to_b256(address: &Address) -> (padded: B256)
    ensures
        padded@ == zeros(12) + address@,
{
    let mut buffer = [0u8;32];
    let mut offset: usize = 0;
    while offset < 20
        invariant
            offset <= 20,
            forall|j: int| 0 <= j < 12 ==> buffer@[j] == 0,
            forall|j: int| 0 <= j < offset ==> buffer@[12 + j] == address@[j],
        decreases 20 - offset,
    {
        buffer[12 + offset] = address.0[offset];
        offset += 1;
    }
    assert(buffer@ =~= zeros(12) + address@);
    B256::new(buffer)
}

/// The address in the last twenty bytes of a hash.
pub fn b256_to_account_address(value: &B256) -> (address: Address)
    ensures
        address@ == value@.subrange(12, 32),
{
    address_from(value.as_slice(), 12)
}

/// Reads an address from a big-endian byte string of any length: its last
/// twenty bytes, provided that there are twenty and that every byte before
/// them is zero.
pub fn be_bytes_to_safe_address(bytes: &[u8]) -> (address: Option<Address>)
    ensures
        address is Some <==> bytes@.len() >= 20 && all_zero(
            bytes@.subrange(0, bytes@.len() - 20),
        ),
        address is Some ==> address->0@ == bytes@.subrange(
            bytes@.len() - 20,
            bytes@.len() as int,
        ),
{
    if bytes.len() < 20 {
        return None;
    }
    let lead = bytes.len() - 20;
    let mut index: usize = 0;
    while index < lead
        invariant
            index <= lead,
            lead + 20 == bytes@.len(),
            forall|i: int| 0 <= i < index ==> bytes@[i] == 0,
        decreases lead - index,
    {
        if bytes[index] != 0 {
            assert(bytes@.subrange(0, lead as int)[index as int] != 0);
            return None;
        }
        index += 1;
    }
    assert(all_zero(bytes@.subrange(0, lead as int)));
    Some(address_from(bytes, lead))
}

/// The 32 bytes that stand for `value`, most significant byte first.
fn be_bytes_32(value: u64) -> (bytes: [u8; 32])
    ensures
        bytes@ == be_bytes_of(value as nat, 32),
{
    let mut bytes = [0u8;32];
    let mut rest: u64 = value;
    let mut written: usize = 0;
    while written < 32
        invariant
            written <= 32,
            be_bytes_of(value as nat, 32) == be_bytes_of(rest as nat, (32 - written) as nat)
                + bytes@.subrange(32 - written, 32),
        decreases 32 - written,
    {
        let ghost before = bytes@;
        let ghost left = (32 - written) as nat;
        bytes[31 - written] = (rest % 256) as u8;
        proof {
            lemma_be_bytes_len((rest / 256) as nat, (left - 1) as nat);
            assert(be_bytes_of(rest as nat, left) == be_bytes_of(
                (rest / 256) as nat,
                (left - 1) as nat,
            ).push((rest % 256) as u8));
            assert(bytes@.subrange(31 - written, 32) =~= seq![(rest % 256) as u8]
                + before.subrange(32 - written, 32));
            assert(be_bytes_of(rest as nat, left) + before.subrange(32 - written, 32)
                =~= be_bytes_of((rest / 256) as nat, (left - 1) as nat) + bytes@.subrange(
                31 - written,
                32,
            ));
        }
        rest = rest / 256;
        written += 1;
    }
    assert(bytes@.subrange(0, 32) =~= bytes@);
    assert(be_bytes_of(rest as nat, 0) + bytes@ =~= bytes@);
    bytes
}

/// Reads the last four bytes of a hash as a big-endian number.
pub fn b256_to_u32(value: B256) -> (number: u32)
    ensures
        number == be_value(value@.subrange(28, 32)),
{
    let ghost tail = value@.subrange(28, 32);
    let b0: u32 = value.0[28] as u32;
    let b1: u32 = value.0[29] as u32;
    let b2: u32 = value.0[30] as u32;
    let b3: u32 = value.0[31] as u32;
    proof {
        let t3 = tail.drop_last();
        let t2 = t3.drop_last();
        let t1 = t2.drop_last();
        assert(t1.drop_last().len() == 0);
        assert(be_value(t1.drop_last()) == 0);
        assert(be_value(t1) == b0);
        assert(be_value(t2) == b0 * 256 + b1);
        assert(be_value(t3) == (b0 * 256 + b1) * 256 + b2);
        assert(be_value(tail) == ((b0 * 256 + b1) * 256 + b2) * 256 + b3);
    }
    ((b0 * 256 + b1) * 256 + b2) * 256 + b3
}

/// Writes a number as a hash: big-endian, padded with zero bytes on the
/// left.
pub fn u32_to_b256(value: u32) -> (hash: B256)
    ensures
        hash@ == be_bytes_of(value as nat, 32),
{
    B256::new(be_bytes_32(value as u64))
}

/// Writes a number as a hash: big-endian, padded with zero bytes on the
/// left.
pub fn b256_from_low_u64_be(value: u64) -> (hash: B256)
    ensures
        hash@ == be_bytes_of(value as nat, 32),
{
    B256::new(be_bytes_32(value))
}

/// Reads a hash as a big-endian number.
pub fn b256_to_u256(num: B256) -> (value: U256)
    ensures
        value@ == be_value(num@),
{
    U256::from_limbs(uint_from_be_slice(num.as_slice()))
}

/// Reads an address as a big-endian number.
pub fn address_to_u256(address: &Address) -> (value: U256)
    ensures
        value@ == be_value(address@),
{
    proof {
        lemma_be_value_ignores_leading_zeros(12, address@);
    }
    b256_to_u256(address_to_b256(address))
}

/// Reads each chunk of 32 bytes as a big-endian number. The length of the
/// input must be a multiple of 32.
pub fn bytes_to_be_words(vec: Vec<u8>) -> (words: Vec<U256>)
    requires
        chunkable(vec@),
    ensures
        words@.len() * 32 == vec@.len(),
        forall|i: int|
            0 <= i < words@.len() ==> (#[trigger] words@[i])@ == be_value(chunk_at(vec@, i)),
{
    let total = vec.len();
    let mut words: Vec<U256> = Vec::new();
    let mut start: usize = 0;
    while start < total
        invariant
            total == vec@.len(),
            total % 32 == 0,
            start <= total,
            start % 32 == 0,
            words@.len() * 32 == start,
            forall|i: int|
                0 <= i < words@.len() ==> (#[trigger] words@[i])@ == be_value(chunk_at(vec@, i)),
        decreases total - start,
    {
        let chunk = chunk_from(vec.as_slice(), start);
        let word = U256::from_limbs(uint_from_be_slice(chunk.as_slice()));
        words.push(word);
        start += 32;
    }
    words
}

/// Writes each number as 32 big-endian bytes, one after another.
pub fn be_words_to_bytes(words: &[U256]) -> (bytes: Vec<u8>)
    ensures
        bytes@.len() == 32 * words@.len(),
        forall|i: int|
            0 <= i < words@.len() ==> #[trigger] chunk_at(bytes@, i) == be_bytes_of(
                words@[i]@,
                32,
            ),
{
    let mut bytes: Vec<u8> = Vec::new();
    let mut index: usize = 0;
    while index < words.len()
        invariant
            index <= words@.len(),
            bytes@.len() == 32 * index,
            forall|i: int|
                0 <= i < index ==> #[trigger] chunk_at(bytes@, i) == be_bytes_of(words@[i]@, 32),
        decreases words@.len() - index,
    {
        let ghost before = bytes@;
        let word = uint_to_be_bytes(words[index].limbs);
        bytes.extend_from_slice(word.as_slice());
        proof {
            lemma_be_bytes_len(words@[index as int]@, 32);
            assert(chunk_at(bytes@, index as int) =~= word@);
            assert forall|i: int| 0 <= i < index implies #[trigger] chunk_at(bytes@, i)
                == be_bytes_of(words@[i]@, 32) by {
                assert(chunk_at(bytes@, i) =~= chunk_at(before, i));
            }
        }
        index += 1;
    }
    bytes
}

/// Writes a number as a hash: its 32 big-endian bytes.
pub fn u256_to_b256(num: U256) -> (hash: B256)
    ensures
        hash@ == be_bytes_of(num@, 32),
{
    B256::new(uint_to_be_bytes(num.limbs))
}

/// Converts a number into an address: the last twenty of its 32 big-endian
/// bytes.
pub fn u256_to_account_address(value: &U256) -> (address: Address)
    ensures
        address@ == be_bytes_of(value@, 32).subrange(12, 32),
{
    let bytes = uint_to_be_bytes(value.limbs);
    address_from(bytes.as_slice(), 12)
}

/// Converts a number into its 32 big-endian bytes.
pub fn u256_to_bytes_be(value: &U256) -> (bytes: Vec<u8>)
    ensures
        bytes@ == be_bytes_of(value@, 32),
{
    let word = uint_to_be_bytes(value.limbs);
    slice_to_vec(word.as_slice())
}

/// The lowest 64 bits of a number.
pub fn low_u64_of_u256(value: &U256) -> (low: u64)
    ensures
        low == value@ % limb_base(),
{
    let low = value.limbs[0];
    proof {
        let b = limb_base() as int;
        let rest = (value.limbs@[1] as int) + b * ((value.limbs@[2] as int) + b * (
        value.limbs@[3] as int));
        assert(value@ == low + b * rest);
        vstd::arithmetic::div_mod::lemma_mod_multiples_vanish(rest, low as int, b);
        assert(b * rest == rest * b) by (nonlinear_arith);
        vstd::arithmetic::div_mod::lemma_small_mod(low as nat, b as nat);
    }
    low
}

/// The lowest 128 bits of a number.
pub fn low_u128_of_u256(value: &U256) -> (low: u128)
    ensures
        low == value@ % (limb_base() * limb_base()),
{
    let l0: u128 = value.limbs[0] as u128;
    let l1: u128 = value.limbs[1] as u128;
    assert(l1 * 0x1_0000_0000_0000_0000 + l0 <= u128::MAX) by (nonlinear_arith)
        requires
            l0 <= 0xffff_ffff_ffff_ffff,
            l1 <= 0xffff_ffff_ffff_ffff,
    ;
    let low = l1 * 0x1_0000_0000_0000_0000u128 + l0;
    proof {
        let b = limb_base() as int;
        let high = (value.limbs@[2] as int) + b * (value.limbs@[3] as int);
        assert(value@ == low + (b * b) * high) by (nonlinear_arith)
            requires
                value@ == l0 + b * (l1 + b * high),
                low == l1 * b + l0,
        ;
        assert((b * b) * high == high * (b * b)) by (nonlinear_arith);
        vstd::arithmetic::div_mod::lemma_mod_multiples_vanish(high, low as int, b * b);
        assert(low < b * b) by (nonlinear_arith)
            requires
                low == l1 * b + l0,
                l0 < b,
                l1 < b,
                b > 0,
        ;
        vstd::arithmetic::div_mod::lemma_small_mod(low as nat, (b * b) as nat);
    }
    low
}

/// Whether a number is below two to the power of 128.
pub fn fits_u128(value: &U256) -> (fits: bool)
    ensures
        fits == (value@ < limb_base() * limb_base()),
{
    let fits = value.limbs[2] == 0 && value.limbs[3] == 0;
    proof {
        let b = limb_base() as int;
        let l0 = value.limbs@[0] as int;
        let l1 = value.limbs@[1] as int;
        let l2 = value.limbs@[2] as int;
        let l3 = value.limbs@[3] as int;
        if fits {
            assert(l0 + b * (l1 + b * (l2 + b * l3)) < b * b) by (nonlinear_arith)
                requires
                    l2 == 0,
                    l3 == 0,
                    0 <= l0 < b,
                    0 <= l1 < b,
                    b > 0,
            ;
        } else {
            assert(l0 + b * (l1 + b * (l2 + b * l3)) >= b * b) by (nonlinear_arith)
                requires
                    l2 > 0 || l3 > 0,
                    l0 >= 0,
                    l1 >= 0,
                    l2 >= 0,
                    l3 >= 0,
                    b > 0,
            ;
        }
    }
    fits
}

/// Casts a number to 128 bits. The number must be below two to the power
/// of 128.
pub fn u256_as_u128(value: &U256) -> (low: u128)
    requires
        value@ < limb_base() * limb_base(),
    ensures
        low == value@,
{
    let low = low_u128_of_u256(value);
    proof {
        vstd::arithmetic::div_mod::lemma_small_mod(value@, limb_base() * limb_base());
    }
    low
}

/// Why a conversion was refused.
#[derive(Clone, Copy, Debug, PartialEq, Eq, Structural)]
pub enum ConvertError {
    /// A decimal number below zero was given where an unsigned one is asked
    /// for.
    NegativeDecimal,
}

impl ConvertError {
    /// The text of the error.
    pub fn message(&self) -> (text: &'static str)
        ensures
            text@ == "BigDecimal should be unsigned"@,
    {
        "BigDecimal should be unsigned"
    }
}

/// Fractions that are equal have the same quotient rounded down.
pub proof fn lemma_equal_fractions_floor(a: nat, b: nat, c: nat, d: nat)
    requires
        b > 0,
        d > 0,
        a * d == c * b,
    ensures
        a / b == c / d,
{
    let q = (a / b) as int;
    vstd::arithmetic::div_mod::lemma_fundamental_div_mod(a as int, b as int);
    let r = (a % b) as int;
    assert(q * d <= c && c < (q + 1) * d) by (nonlinear_arith)
        requires
            a == b * q + r,
            0 <= r < b,
            a * d == c * b,
            b > 0,
            d > 0,
            q >= 0,
    ;
    let rest = c - q * d;
    assert(rest < d) by (nonlinear_arith)
        requires
            rest == c - q * d,
            c < (q + 1) * d,
    ;
    assert(c == q * d + rest);
    vstd::arithmetic::div_mod::lemma_fundamental_div_mod_converse(c as int, d as int, q, rest);
}

/// The shortest bytes of a number are at most 32 exactly when the number is
/// below two to the power of 256.
pub proof fn lemma_canonical_fits(bytes: Seq<u8>)
    requires
        crate::utils::bignum::canonical(bytes),
    ensures
        bytes.len() <= 32 <==> be_value(bytes) < uint_modulus(),
{
    lemma_uint_modulus_is_power();
    lemma_be_value_upper_bound(bytes);
    lemma_be_value_lower_bound(bytes);
    if bytes.len() <= 32 {
        lemma_pow_increases(256, bytes.len(), 32);
    } else {
        lemma_pow_increases(256, 32, (bytes.len() - 1) as nat);
        let place = pow(256, (bytes.len() - 1) as nat);
        assert(bytes[0] * place >= place) by (nonlinear_arith)
            requires
                bytes[0] >= 1,
                place >= 0,
        ;
    }
}

/// Converts a 256-bit number into the same number of any size.
pub fn u256_to_biguint(value: U256) -> (big: BigUint)
    ensures
        big@ == value@,
{
    let bytes = uint_to_be_bytes(value.limbs);
    proof {
        lemma_be_value_of_be_bytes(value@, 32);
        lemma_uint_modulus_is_power();
        lemma_u256_bounded(value);
        vstd::arithmetic::div_mod::lemma_small_mod(value@, uint_modulus());
    }
    BigUint::from_bytes_be(bytes.as_slice())
}

/// Tells whether a number of any size is below two to the power of 256.
pub fn fits_u256(value: &BigUint) -> (fits: bool)
    ensures
        fits == (value@ < uint_modulus()),
{
    let bytes = value.as_bytes();
    proof {
        lemma_canonical_fits(bytes@);
    }
    bytes.len() <= 32
}

/// Converts a number of any size into the same 256-bit number. The number
/// must be below two to the power of 256.
pub fn biguint_to_u256(value: BigUint) -> (small: U256)
    requires
        value@ < uint_modulus(),
    ensures
        small@ == value@,
{
    let bytes = value.as_bytes();
    proof {
        lemma_canonical_fits(bytes@);
    }
    U256::from_limbs(uint_from_be_slice(bytes))
}

/// A ratio times ten to the power of `precision`, rounded to the nearest
/// integer, half-way cases upwards. The denominator must not be zero.
pub fn round_precision_raw_no_div(num: &Ratio, precision: usize) -> (rounded: BigUint)
    requires
        num.denom_spec() != 0,
    ensures
        rounded@ == round_half_up(num.numer_spec() * pow10(precision as nat), num.denom_spec()),
{
    let ten_pow = big_pow10(precision as u128);
    let scaled = ratio_mul_int(num.numer().as_bytes(), num.denom().as_bytes(), ten_pow.as_slice());
    let whole = ratio_round(scaled.0.as_slice(), scaled.1.as_slice());
    let quotient = ratio_to_integer(whole.0.as_slice(), whole.1.as_slice());
    proof {
        let n = num.numer_spec();
        let d = num.denom_spec();
        let k = pow10(precision as nat);
        let n1 = be_value(scaled.0@);
        let d1 = be_value(scaled.1@);
        assert((2 * n1 + d1) * (2 * d) == (2 * (n * k) + d) * (2 * d1)) by (nonlinear_arith)
            requires
                n1 * d == n * k * d1,
        ;
        lemma_equal_fractions_floor(2 * n1 + d1, 2 * d1, 2 * (n * k) + d, 2 * d);
    }
    BigUint::from_canonical(quotient)
}

/// The decimal number nearest to a ratio among those with `precision`
/// digits behind the decimal point, half-way cases upwards. The
/// denominator must not be zero.
pub fn ratio_to_big_decimal(num: &Ratio, precision: usize) -> (number: BigDecimal)
    requires
        num.denom_spec() != 0,
        precision <= i64::MAX,
    ensures
        number@ == (DecimalView {
            digits: round_half_up(
                num.numer_spec() * pow10(precision as nat),
                num.denom_spec(),
            ) as int,
            scale: precision as int,
        }),
{
    let digits = round_precision_raw_no_div(num, precision);
    BigDecimal::new(BigInt::from_biguint(Sign::Plus, digits), precision as i64)
}

/// A 256-bit number as a decimal number with eighty zeros behind the
/// decimal point.
pub fn u256_to_big_decimal(value: U256) -> (number: BigDecimal)
    ensures
        number@ == (DecimalView { digits: (value@ * pow10(80)) as int, scale: 80 }),
{
    let ratio = Ratio::new_raw(u256_to_biguint(value), BigUint::from_u64(1));
    proof {
        let scaled = value@ * pow10(80);
        assert((2 * scaled + 1) / 2 == scaled);
    }
    ratio_to_big_decimal(&ratio, 80)
}

/// The decimal number that `ratio_to_big_decimal` gives, normalized.
pub open spec fn normalized_ratio_spec(numer: nat, denom: nat, precision: nat) -> DecimalView {
    normalized_spec(
        DecimalView {
            digits: round_half_up(numer * pow10(precision), denom) as int,
            scale: precision as int,
        },
    )
}

/// Whether `ratio_to_big_decimal_normalized` can work on these inputs: the
/// denominator is not zero, both precisions fit the machine word, and so
/// does the number of digits by which the normalized number falls short of
/// `min_precision`.
pub open spec fn can_normalize(numer: nat, denom: nat, precision: nat, min_precision: nat) -> bool {
    &&& denom != 0
    &&& precision <= i64::MAX
    &&& min_precision <= i64::MAX
    &&& min_precision - normalized_ratio_spec(numer, denom, precision).scale <= i64::MAX
}

/// Tells whether `ratio_to_big_decimal_normalized` can work on these
/// inputs.
pub fn normalized_in_reach(num: &Ratio, precision: usize, min_precision: usize) -> (ok: bool)
    ensures
        ok == can_normalize(
            num.numer_spec(),
            num.denom_spec(),
            precision as nat,
            min_precision as nat,
        ),
{
    if num.denom().is_zero() || precision as u64 > 0x7fff_ffff_ffff_ffffu64 || min_precision as u64
        > 0x7fff_ffff_ffff_ffffu64 {
        return false;
    }
    let digits = round_precision_raw_no_div(num, precision);
    if digits.is_zero() {
        return true;
    }
    let limit: u64 = (0x7fff_ffff_ffff_ffffu64 - min_precision as u64) + precision as u64;
    trailing_zeros_within(&digits, limit)
}

/// Like `ratio_to_big_decimal`, but without zeros at the end that no digit
/// follows, except that at least `min_precision` digits are kept behind the
/// decimal point. The denominator must not be zero, and the scales that
/// come up on the way must fit the machine word.
pub fn ratio_to_big_decimal_normalized(num: &Ratio, precision: usize, min_precision: usize) -> (number:
    BigDecimal)
    requires
        can_normalize(
            num.numer_spec(),
            num.denom_spec(),
            precision as nat,
            min_precision as nat,
        ),
    ensures
        number@ == max_spec(
            normalized_ratio_spec(num.numer_spec(), num.denom_spec(), precision as nat),
            with_scale_spec(
                normalized_ratio_spec(num.numer_spec(), num.denom_spec(), precision as nat),
                min_precision as int,
            ),
        ),
{
    let exact = ratio_to_big_decimal(num, precision);
    let normalized = exact.normalized_unsigned();
    let min_scaled = normalized.with_scale(min_precision as i64);
    proof {
        let m = crate::utils::bignum::magnitude_of(normalized@.digits);
        if min_precision as int >= normalized@.scale {
            let factor = pow10((min_precision - normalized@.scale) as nat);
            assert(m * factor >= 0) by (nonlinear_arith)
                requires
                    m >= 0,
                    factor >= 0,
            ;
        } else {
            let divisor = pow10((normalized@.scale - min_precision) as nat);
            lemma_pow_positive(10, (normalized@.scale - min_precision) as nat);
            assert(m / divisor >= 0) by (nonlinear_arith)
                requires
                    m >= 0,
                    divisor > 0,
            ;
        }
    }
    normalized.max_unsigned(min_scaled)
}

/// Reads a decimal number that is not negative as a ratio in lowest terms;
/// a negative one is refused. A number that is not negative must have a
/// scale that is not negative either.
pub fn big_decimal_to_ratio(num: &BigDecimal) -> (ratio: Result<Ratio, ConvertError>)
    requires
        num@.digits >= 0 ==> num@.scale >= 0,
    ensures
        ratio is Err <==> num@.digits < 0,
        ratio is Ok ==> {
            &&& ratio->Ok_0.denom_spec() > 0
            &&& ratio->Ok_0.numer_spec() * pow10(num@.scale as nat) == num@.digits
                * ratio->Ok_0.denom_spec()
            &&& coprime(ratio->Ok_0.numer_spec(), ratio->Ok_0.denom_spec())
        },
{
    let (big_int, exp) = num.as_bigint_and_exponent();
    match big_int.to_biguint() {
        None => Err(ConvertError::NegativeDecimal),
        Some(big_uint) => {
            let ten_pow = BigUint::from_canonical(big_pow10(exp as u128));
            proof {
                lemma_pow_positive(10, exp as nat);
            }
            Ok(Ratio::new(big_uint, ten_pow))
        },
    }
}

/// Whether the whole part of a decimal number is a 256-bit number.
pub open spec fn whole_part_fits(number: DecimalView) -> bool {
    0 <= with_scale_spec(number, 0).digits < uint_modulus()
}

/// Tells whether the whole part of a decimal number is a 256-bit number.
pub fn whole_part_in_reach(value: &BigDecimal) -> (ok: bool)
    ensures
        ok == (value.can_rescale(0) && whole_part_fits(value@)),
{
    if !value.scale_in_reach(0) {
        return false;
    }
    let (digits, _) = value.with_scale(0).into_bigint_and_exponent();
    match digits.to_biguint() {
        None => false,
        Some(whole) => fits_u256(&whole),
    }
}

/// The whole part of a decimal number, digits behind the decimal point cut
/// off, as a 256-bit number. The whole part must be a 256-bit number.
pub fn bigdecimal_to_u256(value: BigDecimal) -> (whole: U256)
    requires
        value.can_rescale(0),
        whole_part_fits(value@),
    ensures
        whole@ == with_scale_spec(value@, 0).digits,
{
    let (digits, _) = value.with_scale(0).into_bigint_and_exponent();
    match digits.to_biguint() {
        Some(magnitude) => biguint_to_u256(magnitude),
        None => {
            proof {
                assert(false);
            }
            unreached()
        },
    }
}

} // verus!
