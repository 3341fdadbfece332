[package]
name = "fhe_boundary"
version = "0.1.0"
edition = "2021"
publish = false

[dependencies]
tfhe = { version = "=0.8.7", default-features = false, features = ["integer", "x86_64-unix"] }
bincode = "=1.3.3"
wasm-bindgen = "=0.2.129"
console_error_panic_hook = "=0.1.7"
