[package]
name = "lnurl_settle"
version = "0.1.0"
edition = "2021"
publish = false

[dependencies]
anyhow = "=1.0.104"
axum = "=0.7.9"
axum-macros = "=0.4.2"
fedimint-core = "0.2"
futures = "=0.3.34"
hex = "=0.4.3"
lightning-invoice = "0.27"
nostr = "=0.24.0"
nostr-sdk = "0.24"
serde = { version = "=1.0.229", features = ["derive"] }
serde_json = "=1.0.154"
tokio = { version = "=1.54.1", features = ["sync"] }
tracing = "=0.1.44"
url = { version = "=2.5.8", features = ["serde"] }
xmpp = "0.5"
