[package]
name = "porcelet"
version = "0.1.0"
edition = "2021"
publish = false

[dependencies]
anyhow = "*"
clap = { version = "*", features = ["derive"] }
env_logger = "*"
log = "*"
thiserror = "*"
tokio = { version = "*", features = ["net", "rt-multi-thread", "macros", "sync", "io-util"] }
windows-service = "*"
