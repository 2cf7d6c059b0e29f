[package]
name = "kakarot_rpc"
version = "0.1.0"
edition = "2021"
publish = false

[dependencies]
reth-primitives = "*"
alloy-primitives = { version = "*", features = ["k256"] }
alloy-consensus = { version = "*", features = ["k256"] }
alloy-eips = "*"
alloy-rlp = "*"
alloy-dyn-abi = "*"
rstest = "*"
tracing = "*"
tracing-subscriber = { version = "*", features = ["env-filter"] }

[dev-dependencies]
k256 = "*"
