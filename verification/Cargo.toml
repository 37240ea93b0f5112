[package]
name = "exmo_exchange"
version = "0.1.0"
edition = "2021"
publish = false

[dependencies]
chrono = "0.4"
rust-crypto = "0.2"
serde = { version = "1", features = ["derive"] }
serde_json = "1"
config = "0.13"
validator = "0.16"
futures-retry = "0.6"
