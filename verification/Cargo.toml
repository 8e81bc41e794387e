[package]
name = "socks5_relay"
version = "0.1.0"
edition = "2021"
publish = false

[dependencies]
anyhow = "1"
async-shutdown = "0.1"
bytes = "1"
dotenvy = "0.15"
env_logger = "0.10"
log = "0.4"
serde = { version = "1", features = ["derive"] }
serde_json = "1"
smallvec = "1"
tokio = { version = "1", features = ["io-util", "macros", "net", "rt-multi-thread", "signal"] }
