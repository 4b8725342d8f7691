[package]
name = "enode_url"
version = "0.1.0"
edition = "2021"
publish = false

[dependencies]
libp2p = { version = "*", default-features = false, features = ["ed25519", "secp256k1"] }

[dev-dependencies]
hex = "*"
