[package]
name = "hub"
version = "0.1.0"
edition = "2021"
publish = false

[dependencies]
async-trait = "0.1"
messages = "0.3"
rinf = "*"
rinf-router = "*"
serde = { version = "1", features = ["derive"] }
tokio = { version = "1", features = ["macros", "rt", "rt-multi-thread", "sync", "time"] }
tokio_with_wasm = "*"
