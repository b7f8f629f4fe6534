[package]
name = "aeon_core"
version = "0.1.0"
edition = "2021"
publish = false

[dependencies]
blake3 = "1"
rand_chacha = "0.3"
libm = "0.2"
lazy_static = "1"
jni = "0.21"
tokio = { version = "1", features = ["rt-multi-thread", "macros", "sync"] }
libp2p = { version = "0.53", features = ["tokio", "tcp", "noise", "yamux", "relay", "kad", "gossipsub", "identify", "ping", "dcutr", "macros", "ed25519"] }
