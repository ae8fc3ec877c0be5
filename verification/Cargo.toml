[package]
name = "frost_session"
version = "0.1.0"
edition = "2021"
publish = false

[dependencies]
async-channel = "=2.5.0"
futures = "=0.3.34"
givre = { version = "=0.3.0", features = ["cggmp24-keygen", "full-signing", "ciphersuite-bitcoin", "serde"] }
hex = "=0.4.3"
pin-project-lite = "=0.2.17"
rand = "=0.8.8"
round-based = "=0.4.1"
serde = { version = "=1.0.229", features = ["derive"] }
serde_json = "=1.0.154"
sha2 = "=0.10.9"
tracing = "=0.1.44"
