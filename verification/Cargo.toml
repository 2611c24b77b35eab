[package]
name = "rpc_nonce"
version = "0.1.0"
edition = "2021"
publish = false

[dependencies]
parity-scale-codec = "2"
jsonrpc-core = "18"
jsonrpc-core-client = "18"
jsonrpc-derive = "18"
futures = "0.3"
log = "0.4"
