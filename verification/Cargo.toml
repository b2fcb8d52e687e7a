[package]
name = "kcc20"
version = "0.1.0"
edition = "2021"
publish = false

[dependencies]
blake3 = "=1.8.7"
kaspa-consensus-core = "=2.1.0"
kaspa-txscript = "=2.1.0"
secp256k1 = { version = "=0.29.1", features = ["global-context", "rand-std"] }
