[package]
name = "gdax_client"
version = "0.1.0"
edition = "2021"
publish = false

[dependencies]
base64 = "=0.23.1"
rust-crypto = "=0.2.36"
chrono = "=0.4.45"
time = "=0.3.55"
serde_json = { version = "=1.0.151", features = ["arbitrary_precision"] }
