//! Basic types: hashes, addresses, 256-bit integers, networks and hashers.

pub mod hasher;
pub mod network;
pub mod types;

pub use network::Network;
pub use types::{Address, L1ChainId, B256, U256};
