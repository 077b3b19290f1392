[package]
name = "signet"
version = "0.1.0"
edition = "2021"
publish = false

[dependencies]
anyhow = "1"
clap = { version = "4", features = ["derive"] }
hex = "0.4"
ratatui = "0.29"
rcgen = "0.13"
serde = { version = "1", features = ["derive"] }
serde_json = "1"
sha2 = "0.10"
thiserror = "1"
time = { version = "0.3", features = ["formatting"] }
toml = "0.8"
which = "6"
x509-parser = "0.16"
zip = { version = "2", default-features = false, features = ["deflate"] }
