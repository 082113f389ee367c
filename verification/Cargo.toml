[package]
name = "web3_signer"
version = "0.1.0"
edition = "2021"
publish = false

[dependencies]
secp256k1 = { version = "=0.20.3", features = ["recovery"] }
tiny-keccak = { version = "=2.0.2", features = ["keccak"] }
hex = "=0.4.3"
serde = { version = "=1.0.229", features = ["derive"] }
serde_json = "=1.0.151"

[dev-dependencies]
rlp = "=0.5.2"
