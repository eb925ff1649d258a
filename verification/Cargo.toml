[package]
name = "pumpkin_wasm_host"
version = "0.1.0"
edition = "2021"
publish = false

[dependencies]
wasmparser = "*"
wasm-encoder = "*"
ed25519-dalek = "2"
hex = "0.4"
serde = { version = "1", features = ["derive"] }
serde_json = "1"
tracing = "0.1"
ureq = "3"
postcard = { version = "1", features = ["alloc"] }
tracing-serde-structured = "*"
thiserror = "2"
