[package]
name = "webhook_relay"
version = "0.1.0"
edition = "2021"
publish = false

[dependencies]
axum = "0.8"
azure_identity = "0.20"
azure_security_keyvault = "0.20"
digest = "0.10"
faster-hex = "0.10"
gethostname = "0.5"
hmac = "0.12"
reqwest = { version = "0.12", default-features = false, features = ["rustls-tls"] }
serde = { version = "1", features = ["derive"] }
serde_json = "1"
sha2 = "0.10"
tokio = { version = "1", features = ["full"] }
tracing = "0.1"
