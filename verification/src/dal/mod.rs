//! Access to a pooled database: how a pool is configured, how a connection
//! is acquired from it with bounded retries, and what a leased connection
//! may be used for.

pub mod acquire;
pub mod connection;
pub mod storage;

pub use connection::ConnectionPool;
pub use storage::StorageProcessor;
