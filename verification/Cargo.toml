[package]
name = "python_wasi_reactor"
version = "0.1.0"
edition = "2021"
publish = false

[dependencies]
serde = { version = "1", features = ["derive"] }
serde_json = "1"
anyhow = "1"
once_cell = "1"
arc-swap = "1"
pyo3 = "0.19"
wasmedge-sdk = "0.10"
wasmedge-bindgen = "0.4"
wasmedge-bindgen-macro = "0.4"
deno_bindgen = "0.8"
