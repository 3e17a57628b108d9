[package]
name = "tethereum"
version = "0.1.0"
edition = "2021"
publish = false

[dependencies]
ethereum-types = "=0.14.1"
evm = "=0.41.1"
hex = "=0.4.3"
jsonrpc-core = "=18.0.0"
jsonrpc-derive = "=18.0.0"
jsonrpc-http-server = "=18.0.0"
keccak-hash = "=0.10.0"
parity-crypto = { version = "=0.9.0", features = ["publickey"] }
rlp = "=0.5.2"
serde = { version = "=1.0.229", features = ["derive"] }
serde_json = "=1.0.154"
