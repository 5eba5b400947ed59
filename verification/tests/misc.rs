use axon_core::primitives::types::{B256, U256};
use axon_core::utils::misc::{
    ceil_div, ceil_div_u256, concat_and_hash, expand_memory_contents, is_zero_u256, memory_holds,
};

#[test]
fn test_ceil_div_u64_max() {
    assert_eq!(0, ceil_div(u64::MIN, u64::MAX));
    assert_eq!(1, ceil_div(u64::MAX, u64::MAX));
}

#[test]
fn test_ceil_div_roundup_required() {
    assert_eq!(3, ceil_div(5, 2));
    assert_eq!(4, ceil_div(10, 3));
    assert_eq!(3, ceil_div(15, 7));
}

#[test]
fn test_ceil_div_no_roundup_required() {
    assert_eq!(2, ceil_div(4, 2));
    assert_eq!(2, ceil_div(6, 3));
    assert_eq!(2, ceil_div(14, 7));
}

#[test]
fn ceil_div_of_zero_ignores_the_divisor() {
    assert_eq!(0, ceil_div(0, 0));
    assert_eq!(0, ceil_div(0, 7));
    assert_eq!(u64::MAX, ceil_div(u64::MAX, 1));
}

#[test]
fn ceil_div_u256_rounds_up() {
    let q = ceil_div_u256(U256::from_u64(10), U256::from_u64(3));
    assert_eq!(q, U256::from_u64(4));
    let q = ceil_div_u256(U256::from_u64(12), U256::from_u64(3));
    assert_eq!(q, U256::from_u64(4));
    let q = ceil_div_u256(U256::from_u64(0), U256::from_u64(3));
    assert_eq!(q, U256::from_u64(0));
}

#[test]
fn ceil_div_u256_wraps_at_the_top() {
    let max = U256::from_limbs([u64::MAX; 4]);
    // max + 1 - 1 wraps to max.
    assert_eq!(ceil_div_u256(max, U256::one()), max);
    // max + 2 - 1 wraps to zero.
    assert_eq!(ceil_div_u256(max, U256::from_u64(2)), U256::from_u64(0));
}

#[test]
fn zero_is_told_from_other_numbers() {
    assert!(is_zero_u256(&U256::from_u64(0)));
    assert!(!is_zero_u256(&U256::from_u64(1)));
    assert!(!is_zero_u256(&U256::from_limbs([0, 0, 0, 1])));
}

#[test]
fn concat_and_hash_is_keccak_of_both() {
    // Keccak-256 of 64 zero bytes.
    let hash = concat_and_hash(B256::zero(), B256::zero());
    let expected: [u8; 32] = [
        0xad, 0x32, 0x28, 0xb6, 0x76, 0xf7, 0xd3, 0xcd, 0x42, 0x84, 0xa5, 0x44, 0x3f, 0x17, 0xf1,
        0x96, 0x2b, 0x36, 0xe4, 0x91, 0xb3, 0x0a, 0x40, 0xb2, 0x40, 0x58, 0x49, 0xe5, 0x97, 0xba,
        0x5f, 0xb5,
    ];
    assert_eq!(hash, B256::new(expected));
}

#[test]
fn expand_memory_contents_writes_words_at_offsets() {
    let packed = vec![(1usize, U256::from_u64(0x0102)), (0usize, U256::from_u64(7))];
    assert!(memory_holds(&packed, 96));
    let memory = expand_memory_contents(&packed, 96);
    assert_eq!(memory.len(), 96);
    let mut expected = vec![0u8; 96];
    expected[31] = 7;
    expected[62] = 1;
    expected[63] = 2;
    assert_eq!(memory, expected);
}

#[test]
fn expand_memory_contents_lets_the_later_word_win() {
    let packed = vec![(0usize, U256::from_u64(1)), (0usize, U256::from_u64(2))];
    let memory = expand_memory_contents(&packed, 32);
    assert_eq!(memory[31], 2);
    assert_eq!(expand_memory_contents(&[], 3), vec![0u8; 3]);
}

#[test]
fn memory_that_is_too_small_is_refused() {
    let packed = vec![(2usize, U256::from_u64(1))];
    assert!(!memory_holds(&packed, 95));
    assert!(memory_holds(&packed, 96));
    assert!(!memory_holds(&[(usize::MAX, U256::one())], 64));
    assert!(!memory_holds(&packed, 0));
}
