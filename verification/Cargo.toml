[package]
name = "deepkey"
version = "0.1.0"
edition = "2021"
publish = false

[dependencies]
hdi = "0.4"
hdk = "0.3"
holo_hash = { version = "0.3", features = ["hashing"] }
rmp-serde = "1"
serde = { version = "1", features = ["derive"] }
serde_bytes = "0.11"
thiserror = "1"
