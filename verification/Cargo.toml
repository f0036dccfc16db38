[package]
name = "bolt-sidecar"
version = "0.1.0"
edition = "2021"
publish = false

[dependencies]
alloy = { version = "*", default-features = false, features = ["std", "k256", "signer-local"] }
async-trait = "0.1"
axum = "0.7"
axum-extra = "0.9"
eyre = "0.6"
serde = { version = "1", features = ["derive"] }
serde_json = "1"
tokio = { version = "1", features = ["full"] }
tracing = "0.1"
tracing-subscriber = "0.3"
