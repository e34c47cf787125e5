[package]
name = "echo_server"
version = "0.1.0"
edition = "2021"
publish = false

[dependencies]
async-stream = "0.3"
block-id = "*"
clap = { version = "4", features = ["derive"] }
colored = "2"
hyper = { version = "0.14", features = ["full"] }
log = "0.4"
pretty_env_logger = "*"
rand = "0.8"
serde = { version = "1", features = ["derive"] }
serde_json = "1"
tokio = { version = "1", features = ["full"] }
