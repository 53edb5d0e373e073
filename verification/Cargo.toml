[package]
name = "socks_bridge"
version = "0.1.0"
edition = "2021"
publish = false

[dependencies]
env_logger = "0.10"
hyper = { version = "0.14", features = ["full"] }
log = "0.4"
reqwest = { version = "0.11", default-features = false, features = ["socks"] }
tokio = { version = "1", features = ["full"] }
tokio-socks = "0.5"
