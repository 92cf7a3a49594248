[package]
name = "pow_header"
version = "0.1.0"
edition = "2021"
publish = false

[dependencies]
ethereum-types = "*"
keccak-hash = "*"
rlp = "*"
ethash = "*"
unexpected = "*"
ethkey = "*"
ethjson = "*"
heapsize = "*"
error-chain = "*"
serde = { version = "1", features = ["derive"] }
serde_json = "1"
