[package]
name = "ast-grep-wasm"
version = "0.1.0"
edition = "2021"
publish = false

[dependencies]
ast-grep-core = { version = "*", default-features = false }
js-sys = "0.3"
serde = { version = "1", features = ["derive"] }
serde_json = "1"
serde-wasm-bindgen = "0.6"
wasm-bindgen = "0.2"
wasm-bindgen-futures = "0.4"
