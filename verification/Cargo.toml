[package]
name = "moksha-mint"
version = "0.1.0"
edition = "2021"
publish = false

[dependencies]
anyhow = "=1.0.104"
async-trait = "=0.1.92"
fedimint-tonic-lnd = "=0.1.3"
hex = "=0.4.3"
lightning-invoice = "=0.34.1"
serde = { version = "=1.0.229", features = ["derive"] }
tokio = { version = "=1.54.1", features = ["sync", "time"] }
url = "=2.5.8"
