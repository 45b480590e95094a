[package]
name = "getup"
version = "0.1.0"
edition = "2021"
publish = false

[dependencies]
rust-ini = "0.18"
serde_json = "1"
serde = { version = "1", features = ["derive"] }
nix = "0.22"
config = "0.10"
hyper = { version = "0.14", features = ["full"] }
tokio = { version = "1", features = ["full"] }
futures = "0.3"
clap = "2"
daemonize = "0.4"
ctrlc = "3"
log = "0.4"
pretty_env_logger = "0.4"
