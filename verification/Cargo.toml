[package]
name = "dcap_attest"
version = "0.1.0"
edition = "2021"
publish = false

[dependencies]
x509-parser = "=0.16.0"
hex = "=0.4.3"
anyhow = "1"
log = "0.4"
alloy = { version = "0.3", default-features = false }
bonsai-sdk = "=0.8.0"
risc0-zkvm = { version = "~1.2", default-features = false }
