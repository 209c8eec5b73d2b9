[package]
name = "tari_wallet_lib"
version = "0.1.0"
edition = "2021"
publish = false

[dependencies]
blake2 = "=0.11.0"
digest = "=0.11.3"
tari_crypto = "=0.24.0"
getrandom = "=0.4.3"
rand_chacha = "=0.10.0"
serde = { version = "*", features = ["derive"] }
serde-wasm-bindgen = "*"
wasm-bindgen = "*"
