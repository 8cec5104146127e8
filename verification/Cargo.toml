[package]
name = "signed_events"
version = "0.1.0"
edition = "2021"
publish = false

[dependencies]
base64 = "0.13"
bincode = "1.3"
chrono = { version = "0.4", default-features = false, features = ["std", "serde"] }
generic-array = "0.14"
ring = "0.17"
serde = { version = "1", features = ["derive"] }
untrusted = "0.9"
