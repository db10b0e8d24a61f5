[package]
name = "tauri_wasm"
version = "0.1.0"
edition = "2021"
publish = false

[dependencies]
futures = "*"
js-sys = "*"
semver = { version = "*", features = ["serde"] }
serde = { version = "*", features = ["derive"] }
serde_repr = "*"
serde-wasm-bindgen = "*"
thiserror = "*"
wasm-bindgen = "*"
