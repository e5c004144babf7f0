[package]
name = "helios"
version = "0.1.0"
edition = "2021"
publish = false

[dependencies]
clap = { version = "=4.6.7", features = ["derive"] }
clap_complete = "=4.6.11"
exitcode = "=1.1.2"
serde = { version = "=1.0.229", features = ["derive"] }
serde-wasm-bindgen = "=0.6.5"
snafu = "=0.8.9"
wasm-bindgen = "=0.2.129"
