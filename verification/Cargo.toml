[package]
name = "kyokara_codegen"
version = "0.1.0"
edition = "2021"
publish = false

[dependencies]
wasm-encoder = "=0.263.0"
rustc-hash = "=2.1.3"
thiserror = "=2.0.21"

[dev-dependencies]
wasmtime = "=42.0.2"
