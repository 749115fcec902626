[package]
name = "sirs"
version = "0.1.0"
edition = "2021"
publish = false

[dependencies]
wasm-bindgen = "*"
serde = "*"
serde-wasm-bindgen = "*"
console_error_panic_hook = "*"
