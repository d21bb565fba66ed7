[package]
name = "p2p_puncher"
version = "0.1.0"
edition = "2021"
publish = false

[dependencies]
anyhow = "1"
clap = { version = "4", features = ["derive"] }
env_logger = "0.11"
log = "0.4"
parking_lot = "0.12"
tokio = { version = "1", features = ["rt-multi-thread", "net", "time", "macros"] }
