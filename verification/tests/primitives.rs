use axon_core::primitives::hasher::{
    concat_bytes, Blake2Hasher, Hasher, KeccakHasher, Sha256Hasher,
};
use axon_core::primitives::network::Network;
use axon_core::primitives::types::{Address, L1ChainId, B256, U256};
use std::str::FromStr;

fn hex(text: &str) -> [u8; 32] {
    let digits: Vec<u8> =
        text.bytes().map(|c| if c <= b'9' { c - b'0' } else { c - b'a' + 10 }).collect();
    let mut bytes = [0u8; 32];
    for i in 0..32 {
        bytes[i] = digits[2 * i] * 16 + digits[2 * i + 1];
    }
    bytes
}

#[test]
fn networks_are_found_by_chain_id() {
    assert_eq!(Network::from_chain_id(L1ChainId(21)), Network::Mainnet);
    assert_eq!(Network::from_chain_id(L1ChainId(9)), Network::Localhost);
    assert_eq!(Network::from_chain_id(L1ChainId(0)), Network::Unknown);
    assert_eq!(Network::from_chain_id(L1ChainId(u64::MAX)), Network::Unknown);
}

#[test]
fn networks_with_a_chain_id_give_it_back() {
    assert_eq!(Network::Mainnet.chain_id(), L1ChainId(21));
    assert_eq!(Network::Localhost.chain_id(), L1ChainId(9));
    assert!(Network::Mainnet.knows_chain_id());
    assert!(Network::Localhost.knows_chain_id());
    assert!(!Network::Unknown.knows_chain_id());
    assert!(!Network::Test.knows_chain_id());
    for network in [Network::Mainnet, Network::Localhost] {
        assert_eq!(Network::from_chain_id(network.chain_id()), network);
    }
}

#[test]
fn networks_are_read_from_their_names() {
    assert_eq!(Network::from_str("mainnet"), Ok(Network::Mainnet));
    assert_eq!(Network::from_str("localhost"), Ok(Network::Localhost));
    assert_eq!(Network::from_str("test"), Ok(Network::Test));
    assert_eq!(Network::from_str("unknown"), Err("unknown".to_string()));
    assert_eq!(Network::from_str("Mainnet"), Err("Mainnet".to_string()));
    assert_eq!(Network::parse(""), Err(String::new()));
    assert_eq!("test".parse::<Network>(), Ok(Network::Test));
}

#[test]
fn networks_are_named_in_lower_case() {
    assert_eq!(Network::Mainnet.name(), "mainnet");
    assert_eq!(Network::Localhost.name(), "localhost");
    assert_eq!(Network::Unknown.name(), "unknown");
    assert_eq!(Network::Test.name(), "test");
    for network in [Network::Mainnet, Network::Localhost, Network::Test] {
        assert_eq!(Network::parse(&network.name()), Ok(network));
    }
}

#[test]
fn keccak_of_nothing_is_the_known_digest() {
    let expected = hex("c5d2460186f7233c927e7db2dcc703c0e500b653ca82273b7bfad8045d85a470");
    assert_eq!(KeccakHasher.hash_bytes(&[]), B256::new(expected));
}

#[test]
fn sha256_of_abc_is_the_known_digest() {
    let expected = hex("ba7816bf8f01cfea414140de5dae2223b00361a396177a9cb410ff61f20015ad");
    assert_eq!(Sha256Hasher.hash_bytes(b"abc"), B256::new(expected));
}

#[test]
fn blake2s_of_abc_is_the_known_digest() {
    let expected = hex("508c5e8c327c14e2e1a72ba34eeb452f37458b209ed63a294d999b4c86675982");
    assert_eq!(Blake2Hasher.hash_bytes(b"abc"), B256::new(expected));
}

#[test]
fn compress_hashes_left_then_right() {
    let left = B256::new([1u8; 32]);
    let right = B256::new([2u8; 32]);
    let mut both = vec![1u8; 32];
    both.extend_from_slice(&[2u8; 32]);
    assert_eq!(concat_bytes(left.as_slice(), right.as_slice()), both);
    assert_eq!(KeccakHasher.compress(&left, &right), KeccakHasher.hash_bytes(&both));
    assert_eq!(Sha256Hasher.compress(&left, &right), Sha256Hasher.hash_bytes(&both));
    assert_eq!(Blake2Hasher.compress(&left, &right), Blake2Hasher.hash_bytes(&both));
    assert_ne!(KeccakHasher.compress(&left, &right), KeccakHasher.compress(&right, &left));
    assert_ne!(KeccakHasher.hash_bytes(&both), Sha256Hasher.hash_bytes(&both));
    assert_ne!(Blake2Hasher.hash_bytes(&both), Sha256Hasher.hash_bytes(&both));
}

#[test]
fn hashers_have_defaults() {
    let _ = Blake2Hasher::default();
    let _ = KeccakHasher::default();
    let _ = Sha256Hasher::default();
}

#[test]
fn small_types_hold_their_bytes() {
    assert_eq!(B256::zero(), B256::new([0u8; 32]));
    assert_eq!(B256::new([7u8; 32]).as_slice(), &[7u8; 32]);
    assert_eq!(Address::new([3u8; 20]).as_slice(), &[3u8; 20]);
    assert_eq!(U256::from_u64(5).as_limbs(), &[5, 0, 0, 0]);
    assert_eq!(U256::one(), U256::from_limbs([1, 0, 0, 0]));
}
