[package]
name = "op_consensus"
version = "0.1.0"
edition = "2021"
publish = false

[dependencies]
alloy-primitives = "*"
alloy-consensus = "*"
alloy-eips = "*"
alloy-rlp = "*"
alloy-trie = "*"
op-alloy-consensus = "*"
clap = { version = "*", features = ["derive"] }
