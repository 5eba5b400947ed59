[package]
name = "axon_core"
version = "0.1.0"
edition = "2021"
publish = false

[dependencies]
alloy-primitives = "=1.7.3"
anyhow = "=1.0.104"
bigdecimal = "=0.3.1"
blake2 = "=0.10.6"
num = "=0.4.3"
serde = { version = "=1.0.229", features = ["derive"] }
sha2 = "=0.10.9"
sqlx = { version = "=0.9.0", default-features = false, features = ["postgres", "runtime-tokio"] }
tokio = { version = "=1.54.1", features = ["rt", "sync", "time", "macros"] }
tracing = "=0.1.44"
