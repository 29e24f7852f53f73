[package]
name = "eliza_desktop"
version = "0.1.0"
edition = "2021"
publish = false

[dependencies]
keyring = "2"
once_cell = "1"
serde = { version = "1", features = ["derive"] }
url = "2"
