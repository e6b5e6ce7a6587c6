[package]
name = "gh_ec_audit"
version = "0.1.0"
edition = "2021"
publish = false

[dependencies]
base64 = "0.22"
clap = { version = "4", features = ["derive"] }
colored = "2"
csv = "1"
hex = "0.4"
indicatif = "0.17"
regex = "1"
reqwest = { version = "0.12", default-features = false, features = ["blocking", "rustls-tls"] }
serde = { version = "1", features = ["derive"] }
serde_json = "1"
sha2 = "0.10"
toml = "0.8"
urlencoding = "2"
walkdir = "2"
zip = { version = "0.6", default-features = false, features = ["deflate"] }
