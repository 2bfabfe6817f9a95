[package]
name = "cyb_runtime"
version = "0.1.0"
edition = "2021"
publish = false

[dependencies]
anyhow = "=1.0.104"
gloo-utils = { version = "=0.3.0", features = ["serde"] }
js-sys = "=0.3.106"
rune = { version = "=0.14.2", features = ["capture-io"] }
rune-modules = { version = "=0.14.2", features = ["http", "json", "toml", "rand"] }
serde = { version = "=1.0.229", features = ["derive"] }
serde_json = "=1.0.154"
serde-wasm-bindgen = "=0.6.5"
wasm-bindgen = "=0.2.129"
wasm-bindgen-futures = "=0.4.79"
