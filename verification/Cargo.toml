[package]
name = "blockchain"
version = "0.1.0"
edition = "2021"
publish = false

[dependencies]
sha2 = "0.10"
chrono = "0.4"
serde = { version = "1", features = ["derive"] }
serde_json = "1"
tokio = { version = "1", features = ["full"] }
futures = "0.3"
async-std = "1"
libp2p = { version = "0.53", features = ["tokio", "gossipsub", "mdns", "noise", "macros", "tcp", "yamux", "request-response", "cbor"] }
