[package]
name = "wasm2ts"
version = "0.1.0"
edition = "2021"
publish = false

[dependencies]
anyhow = "1"
parity-wasm = "0.45"
swc_common = "*"
swc_ecmascript = { version = "*", features = ["codegen"] }
