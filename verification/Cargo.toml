[package]
name = "typst2katex"
version = "0.1.0"
edition = "2021"
publish = false

[dependencies]
typst = "0.11"
typst-syntax = "0.11"
comemo = "0.4"
serde = { version = "1", features = ["derive"] }
serde_json = "1"
wasm-bindgen = "0.2"
serde-wasm-bindgen = "0.6"
console_error_panic_hook = "0.1"
