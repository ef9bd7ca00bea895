[package]
name = "gr55_core"
version = "0.1.0"
edition = "2021"
publish = false

[dependencies]
serde = { version = "1", features = ["derive"] }
serde_yaml = "0.9"
thiserror = "1"
anyhow = "1"
clap = { version = "4", features = ["derive"] }
env_logger = "0.11"
midir = "0.10"
wasm-bindgen = "0.2"
serde-wasm-bindgen = "0.6"
