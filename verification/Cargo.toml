[package]
name = "quickjs_sandbox"
version = "0.1.0"
edition = "2021"
publish = false

[dependencies]
wasmtime = "=46.0.3"
wasi-common = "=46.0.3"
serde_json = "=1.0.151"
