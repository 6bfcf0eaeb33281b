[package]
name = "wrapper_tx"
version = "0.1.0"
edition = "2021"
publish = false

[dependencies]
ark-bls12-381 = "=0.4.0"
ark-ec = "=0.4.2"
ark-serialize = "=0.4.2"
borsh = "=0.9.3"
ed25519-dalek = { version = "=2.2.0", default-features = false }
group-threshold-cryptography-pre-release = "=0.2.0"
rand = "=0.8.8"
rand_chacha = "=0.3.1"
serde = { version = "=1.0.229", features = ["derive"] }
sha2 = "=0.9.9"
thiserror = "=1.0.69"

[dev-dependencies]
serde_json = "=1.0.154"
