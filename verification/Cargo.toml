[package]
name = "pg_decoderbufs"
version = "0.1.0"
edition = "2021"
publish = false

[dependencies]
anyhow = "1"
bytes = "1"
futures = "0.3"
pin-project-lite = "0.2"
postgres-protocol = "*"
prost = "*"
serde = { version = "1", features = ["derive"] }
serde_bytes = "0.11"
thiserror = "*"
tokio-postgres = "*"
