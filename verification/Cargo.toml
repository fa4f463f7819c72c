[package]
name = "basiccli"
version = "1.0.0"
edition = "2021"
publish = false

[dependencies]
anyhow = "1"
atty = "0.2"
chrono = "0.4"
clap = { version = "4", features = ["derive"] }
colored = "2"
csv = "1"
indicatif = "0.17"
md5 = "0.7"
serde = { version = "1", features = ["derive"] }
serde_json = "1"
serde_yaml = "0.9"
sha1 = "0.10"
sha2 = "0.10"
tempfile = "3"
thiserror = "1"
