[package]
name = "ola_core"
version = "0.1.0"
edition = "2021"
publish = false

[dependencies]
anyhow = "*"
env_logger = "*"
futures = "*"
glob = "*"
listenfd = "*"
log = "*"
nix = { version = "*", features = ["socket", "user", "fs"] }
serde = { version = "*", features = ["derive"] }
serde_json = "*"
sodiumoxide = "*"
tokio = { version = "*", features = ["full"] }
tokio-util = { version = "*", features = ["codec"] }
users = "*"
