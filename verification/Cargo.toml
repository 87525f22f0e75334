[package]
name = "rust-cli-release"
version = "0.1.0"
edition = "2021"
publish = false

[dependencies]
sha2 = "0.10"
hex = "0.4"
serde = { version = "1", features = ["derive"] }
serde_json = "1"
tempfile = "3"
fs2 = "0.4"
dirs = "6"
thiserror = "2"
