[package]
name = "iroh_transport"
version = "0.1.0"
edition = "2021"
publish = false

[dependencies]
iroh = "=1.3.0"
libp2p-core = "=0.44.0"
libp2p-identity = { version = "=0.3.0", features = ["ed25519", "peerid", "rand"] }
futures = { version = "=0.3.34", default-features = false, features = ["std", "alloc"] }
tokio = { version = "=1.53.2", features = ["rt", "sync", "io-util", "time"] }
rand = "=0.10.3"
actor-helper = { version = "=0.3.0", features = ["tokio"] }
