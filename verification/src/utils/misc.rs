//! Small arithmetic helpers.

use crate::primitives::hasher::{concat_bytes, keccak256, keccak256_digest};
use crate::primitives::types::{
    be_bytes_of, lemma_be_bytes_len, lemma_u256_bounded, uint_div, uint_modulus, uint_to_be_bytes,
    uint_wrapping_add, uint_wrapping_sub, B256, U256,
};
use crate::utils::convert::zeros;
use vstd::arithmetic::div_mod::{
    lemma_fundamental_div_mod, lemma_small_mod, lemma_sub_mod_noop,
};
use vstd::prelude::*;

verus! {

/// `q` is the quotient of `a` by `b` rounded up: the least integer whose
/// product with `b` reaches `a`.
pub open spec fn is_ceil_quotient(a: int, b: int, q: int) -> bool {
    (q - 1) * b < a <= q * b
}

/// For a positive divisor at most one integer is the rounded-up quotient.
pub proof fn lemma_ceil_quotient_unique(a: int, b: int, q1: int, q2: int)
    requires
        b > 0,
        is_ceil_quotient(a, b, q1),
        is_ceil_quotient(a, b, q2),
    ensures
        q1 == q2,
{
    if q1 < q2 {
        assert(q1 * b <= (q2 - 1) * b) by (nonlinear_arith)
            requires
                q1 <= q2 - 1,
                b > 0,
        ;
    } else if q2 < q1 {
        assert(q2 * b <= (q1 - 1) * b) by (nonlinear_arith)
            requires
                q2 <= q1 - 1,
                b > 0,
        ;
    }
}

/// Divides `a` by `b`, rounding up. Zero divided by anything, zero included,
/// is zero; a non-zero `a` needs a non-zero `b`.
pub fn ceil_div(a: u64, b: u64) -> (q: u64)
    requires
        a == 0 || b != 0,
    ensures
        a == 0 ==> q == 0,
        b != 0 ==> is_ceil_quotient(a as int, b as int, q as int),
{
    if a == 0 {
        a
    } else {
        let below: u64 = a - 1;
        let floor: u64 = below / b;
        proof {
            lemma_fundamental_div_mod(below as int, b as int);
            assert(floor * b <= below && below < floor * b + b) by (nonlinear_arith)
                requires
                    below == b * floor + ((below as int) % (b as int)),
                    0 <= (below as int) % (b as int) < b,
            ;
            assert((floor + 1) * b == floor * b + b) by (nonlinear_arith);
        }
        floor + 1
    }
}

/// Whether the divisor of a 256-bit division is zero.
pub fn is_zero_u256(value: &U256) -> (zero: bool)
    ensures
        zero == (value@ == 0),
{
    let zero = value.limbs[0] == 0 && value.limbs[1] == 0 && value.limbs[2] == 0 && value.limbs[3]
        == 0;
    proof {
        let b = crate::primitives::types::limb_base() as int;
        let l0 = value.limbs@[0] as int;
        let l1 = value.limbs@[1] as int;
        let l2 = value.limbs@[2] as int;
        let l3 = value.limbs@[3] as int;
        if !zero {
            assert(l0 + b * (l1 + b * (l2 + b * l3)) > 0) by (nonlinear_arith)
                requires
                    l0 > 0 || l1 > 0 || l2 > 0 || l3 > 0,
                    l0 >= 0,
                    l1 >= 0,
                    l2 >= 0,
                    l3 >= 0,
                    b > 0,
            ;
        } else {
            assert(l0 + b * (l1 + b * (l2 + b * l3)) == 0) by (nonlinear_arith)
                requires
                    l0 == 0,
                    l1 == 0,
                    l2 == 0,
                    l3 == 0,
            ;
        }
    }
    zero
}

/// Divides `a` by `b`, rounding up, in 256-bit arithmetic: `a + b - 1`,
/// wrapped around at two to the power of 256, divided by `b`. The divisor
/// must not be zero.
pub fn ceil_div_u256(a: U256, b: U256) -> (q: U256)
    requires
        b@ != 0,
    ensures
        q@ == ((a@ + b@ - 1) % (uint_modulus() as int)) / (b@ as int),
        a@ + b@ - 1 < uint_modulus() ==> is_ceil_quotient(a@ as int, b@ as int, q@ as int),
{
    let one = U256::one();
    let sum = uint_wrapping_add(a.limbs, b.limbs);
    let numerator = uint_wrapping_sub(sum, one.limbs);
    let q = U256::from_limbs(uint_div(numerator, b.limbs));
    proof {
        let m = uint_modulus() as int;
        let n = U256 { limbs: numerator }@ as int;
        lemma_u256_bounded(a);
        assert(m > 1) by (nonlinear_arith)
            requires
                m == 0x1_0000_0000_0000_0000int * 0x1_0000_0000_0000_0000
                    * 0x1_0000_0000_0000_0000 * 0x1_0000_0000_0000_0000,
        ;
        lemma_small_mod(1, m as nat);
        lemma_sub_mod_noop((a@ + b@) as int, 1, m);
        assert(n == (a@ + b@ - 1) % m);
        if a@ + b@ - 1 < m {
            lemma_small_mod((a@ + b@ - 1) as nat, m as nat);
            let total = a@ + b@ - 1;
            let d = b@ as int;
            lemma_fundamental_div_mod(total, d);
            assert(is_ceil_quotient(a@ as int, d, total / d)) by (nonlinear_arith)
                requires
                    total == a@ + d - 1,
                    total == d * (total / d) + (total % d),
                    0 <= total % d < d,
            ;
        }
    }
    q
}

/// The Keccak-256 hash of one hash followed by another.
pub fn concat_and_hash(hash1: B256, hash2: B256) -> (hash: B256)
    ensures
        hash@ == keccak256_digest(hash1@ + hash2@),
{
    let joined = concat_bytes(hash1.as_slice(), hash2.as_slice());
    B256::new(keccak256(joined.as_slice()))
}

/// Memory in which the 32 bytes from word `offset` on are `word`.
pub open spec fn write_word(memory: Seq<u8>, offset: int, word: Seq<u8>) -> Seq<u8> {
    Seq::new(
        memory.len(),
        |i: int|
            if 32 * offset <= i < 32 * offset + 32 {
                word[i - 32 * offset]
            } else {
                memory[i]
            },
    )
}

/// Whether every word of `packed` lies within `size` bytes of memory.
pub open spec fn fits_memory(packed: Seq<(usize, U256)>, size: nat) -> bool {
    forall|i: int| 0 <= i < packed.len() ==> 32 * (#[trigger] packed[i]).0 + 32 <= size
}

/// Memory of `size` zero bytes into which the words of `packed` were
/// written one after another, each at its offset counted in words, as 32
/// big-endian bytes. A later word overwrites an earlier one at the same
/// offset.
pub open spec fn expanded_memory(packed: Seq<(usize, U256)>, size: nat) -> Seq<u8>
    decreases packed.len(),
{
    if packed.len() == 0 {
        zeros(size)
    } else {
        write_word(
            expanded_memory(packed.drop_last(), size),
            packed.last().0 as int,
            be_bytes_of(packed.last().1@, 32),
        )
    }
}

/// Tells whether every word of `packed` lies within `memory_size_bytes`
/// bytes.
pub fn memory_holds(packed: &[(usize, U256)], memory_size_bytes: usize) -> (ok: bool)
    ensures
        ok == fits_memory(packed@, memory_size_bytes as nat),
{
    let mut index: usize = 0;
    while index < packed.len()
        invariant
            index <= packed@.len(),
            forall|i: int| 0 <= i < index ==> 32 * (#[trigger] packed@[i]).0 + 32 <= memory_size_bytes,
        decreases packed@.len() - index,
    {
        let offset = packed[index].0;
        if memory_size_bytes < 32 || offset > (memory_size_bytes - 32) / 32 {
            assert(32 * packed@[index as int].0 + 32 > memory_size_bytes);
            return false;
        }
        index += 1;
    }
    true
}

/// Lays out sparse memory contents: `memory_size_bytes` zero bytes, with
/// each word of `packed` written at its offset. Every word must lie within
/// the memory.
pub fn expand_memory_contents(packed: &[(usize, U256)], memory_size_bytes: usize) -> (result: Vec<
    u8,
>)
    requires
        fits_memory(packed@, memory_size_bytes as nat),
    ensures
        result@ == expanded_memory(packed@, memory_size_bytes as nat),
{
    let mut result: Vec<u8> = vec![0u8; memory_size_bytes];
    assert(result@ =~= zeros(memory_size_bytes as nat));
    assert(packed@.take(0) =~= Seq::<(usize, U256)>::empty());
    let mut index: usize = 0;
    while index < packed.len()
        invariant
            index <= packed@.len(),
            fits_memory(packed@, memory_size_bytes as nat),
            result@.len() == memory_size_bytes,
            result@ == expanded_memory(packed@.take(index as int), memory_size_bytes as nat),
        decreases packed@.len() - index,
    {
        let offset = packed[index].0;
        let word = uint_to_be_bytes(packed[index].1.limbs);
        let ghost before = result@;
        assert(32 * packed@[index as int].0 + 32 <= memory_size_bytes);
        let base: usize = offset * 32;
        let mut position: usize = 0;
        while position < 32
            invariant
                position <= 32,
                base == 32 * offset,
                base + 32 <= memory_size_bytes,
                result@.len() == memory_size_bytes,
                forall|i: int|
                    0 <= i < result@.len() ==> result@[i] == (if base <= i < base + position {
                        word@[i - base]
                    } else {
                        before[i]
                    }),
            decreases 32 - position,
        {
            result[base + position] = word[position];
            position += 1;
        }
        proof {
            let done = packed@.take(index + 1);
            assert(done.drop_last() =~= packed@.take(index as int));
            assert(done.last() == packed@[index as int]);
            lemma_be_bytes_len(packed@[index as int].1@, 32);
            assert(result@ =~= write_word(before, offset as int, word@));
        }
        index += 1;
    }
    assert(packed@.take(index as int) =~= packed@);
    result
}

} // verus!
