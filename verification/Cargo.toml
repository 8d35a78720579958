[package]
name = "wrapper"
version = "0.1.0"
edition = "2021"
publish = false

[dependencies]
sha3 = "=0.10.9"
serde = { version = "=1.0.229", features = ["derive"] }
serde_json = "=1.0.154"
boojum = "=0.32.11"
rescue_poseidon = "=0.32.11"
snark_wrapper = "=0.32.11"
zksync_bellman = "=0.32.11"
ethereum-types = "=0.14.1"
