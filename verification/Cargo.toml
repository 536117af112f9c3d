[package]
name = "opensay"
version = "0.1.0"
edition = "2021"
publish = false

[dependencies]
url = "*"
sha2 = "*"
zeroize = "*"
serde = { version = "*", features = ["derive"] }
serde_json = "*"
toml = "*"
dirs = "*"
