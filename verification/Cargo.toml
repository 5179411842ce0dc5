[package]
name = "murmure2"
version = "0.1.0"
edition = "2021"
publish = false

[dependencies]
crossbeam-channel = "0.5"
keyring = { version = "3", features = ["linux-native"] }
x11rb = "0.13"
serde = { version = "1", features = ["derive"] }
serde_json = "1"
thiserror = "1"
once_cell = "1"
dirs = "5"
tokio = { version = "1", features = ["time"] }
reqwest = { version = "0.12", features = ["json", "multipart"] }
