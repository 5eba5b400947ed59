//! Hashers that map bytes to 32-byte digests.

use crate::primitives::types::B256;
use vstd::prelude::*;

verus! {

/// The Keccak-256 digest of a byte string.
pub uninterp spec fn keccak256_digest(bytes: Seq<u8>) -> Seq<u8>;

/// The SHA-256 digest of a byte string.
pub uninterp spec fn sha256_digest(bytes: Seq<u8>) -> Seq<u8>;

/// The BLAKE2s-256 digest of a byte string.
pub uninterp spec fn blake2s256_digest(bytes: Seq<u8>) -> Seq<u8>;

/// `keccak256` of alloy-primitives: the Keccak-256 digest of the bytes.
#[verifier::external_body]
pub(crate) fn keccak256(bytes: &[u8]) -> (digest: [u8; 32])
    ensures
        digest@ == keccak256_digest(bytes@),
{
    alloy_primitives::utils::keccak256(bytes).0
}

/// `Sha256::digest` of sha2: the SHA-256 digest of the bytes.
#[verifier::external_body]
pub(crate) fn sha256(bytes: &[u8]) -> (digest: [u8; 32])
    ensures
        digest@ == sha256_digest(bytes@),
{
    <sha2::Sha256 as sha2::Digest>::digest(bytes).into()
}

/// `Blake2s256::digest` of blake2: the BLAKE2s-256 digest of the bytes.
#[verifier::external_body]
pub(crate) fn blake2s256(bytes: &[u8]) -> (digest: [u8; 32])
    ensures
        digest@ == blake2s256_digest(bytes@),
{
    <blake2::Blake2s256 as blake2::Digest>::digest(bytes).into()
}

/// One byte string after another.
pub fn concat_bytes(first: &[u8], second: &[u8]) -> (joined: Vec<u8>)
    ensures
        joined@ == first@ + second@,
{
    let mut joined: Vec<u8> = Vec::new();
    joined.extend_from_slice(first);
    joined.extend_from_slice(second);
    joined
}

/// A hash function with 32-byte digests, for trees of hashes.
pub trait Hasher {
    /// The digest of a byte string.
    spec fn digest_spec(bytes: Seq<u8>) -> Seq<u8>;

    /// Gets the hash of the byte sequence.
    fn hash_bytes(&self, value: &[u8]) -> (hash: B256)
        ensures
            hash@ == Self::digest_spec(value@),
    ;

    /// Merges two hashes into one: the hash of the left one followed by the
    /// right one.
    fn compress(&self, lhs: &B256, rhs: &B256) -> (hash: B256)
        ensures
            hash@ == Self::digest_spec(lhs@ + rhs@),
    ;
}

/// The BLAKE2s-256 hasher.
#[derive(Clone, Copy, Debug)]
pub struct Blake2Hasher;

/// The Keccak-256 hasher.
#[derive(Clone, Copy, Debug)]
pub struct KeccakHasher;

/// The SHA-256 hasher.
#[derive(Clone, Copy, Debug)]
pub struct Sha256Hasher;

impl Hasher for Blake2Hasher {
    open spec fn digest_spec(bytes: Seq<u8>) -> Seq<u8> {
        blake2s256_digest(bytes)
    }

    fn hash_bytes(&self, value: &[u8]) -> (hash: B256) {
        B256::new(blake2s256(value))
    }

    fn compress(&self, lhs: &B256, rhs: &B256) -> (hash: B256) {
        let joined = concat_bytes(lhs.as_slice(), rhs.as_slice());
        B256::new(blake2s256(joined.as_slice()))
    }
}

impl Hasher for KeccakHasher {
    open spec fn digest_spec(bytes: Seq<u8>) -> Seq<u8> {
        keccak256_digest(bytes)
    }

    fn hash_bytes(&self, value: &[u8]) -> (hash: B256) {
        B256::new(keccak256(value))
    }

    fn compress(&self, lhs: &B256, rhs: &B256) -> (hash: B256) {
        let joined = concat_bytes(lhs.as_slice(), rhs.as_slice());
        B256::new(keccak256(joined.as_slice()))
    }
}

impl Hasher for Sha256Hasher {
    open spec fn digest_spec(bytes: Seq<u8>) -> Seq<u8> {
        sha256_digest(bytes)
    }

    fn hash_bytes(&self, value: &[u8]) -> (hash: B256) {
        B256::new(sha256(value))
    }

    fn compress(&self, lhs: &B256, rhs: &B256) -> (hash: B256) {
        let joined = concat_bytes(lhs.as_slice(), rhs.as_slice());
        B256::new(sha256(joined.as_slice()))
    }
}

impl Default for Blake2Hasher {
    fn default() -> (hasher: Self) {
        Blake2Hasher
    }
}

impl Default for KeccakHasher {
    fn default() -> (hasher: Self) {
        KeccakHasher
    }
}

impl Default for Sha256Hasher {
    fn default() -> (hasher: Self) {
        Sha256Hasher
    }
}

} // verus!
