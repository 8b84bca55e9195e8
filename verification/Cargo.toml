[package]
name = "whimpr"
version = "0.1.0"
edition = "2021"
publish = false

[dependencies]
anyhow = "1"
cpal = "0.15"
serde = { version = "1", features = ["derive"] }
serde_json = "1"
thiserror = "1"
