[package]
name = "jsonrpc-client-core"
version = "0.1.0"
edition = "2021"
publish = false

[dependencies]
error-chain = { version = "0.12", default-features = false }
jsonrpc-core = "*"
log = "0.4"
serde = "1.0"
serde_json = "1.0"
