[package]
name = "poi"
version = "0.1.0"
edition = "2021"
publish = false

[dependencies]
alloy-consensus = { version = "=0.12.6", features = ["serde", "k256"] }
alloy-eips = { version = "=0.12.6", features = ["serde"] }
alloy-primitives = { version = "=0.8.26", features = ["serde", "k256", "rlp", "rand"] }
alloy-rlp = "=0.3.17"
alloy-sol-types = "=0.8.26"
alloy-trie = { version = "=0.7.9", features = ["ethereum"] }
eth_trie = "=0.5.0"
eyre = "=0.6.14"
serde = "=1.0.219"
serde_json = "=1.0.140"
sp1-zkvm = "=4.2.1"
