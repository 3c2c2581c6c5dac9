[package]
name = "tokensbyte"
version = "0.1.0"
edition = "2021"
publish = false

[dependencies]
serde = { version = "=1.0.229", features = ["derive"] }
serde_json = "=1.0.154"
dashmap = "=6.2.1"
iana-time-zone = "=0.1.65"
regex = "=1.13.1"
governor = "=0.10.4"
chrono = "=0.4.45"
chrono-tz = "=0.10.4"
sha2 = "0.10"
hex = "0.4"
