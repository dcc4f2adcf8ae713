[package]
name = "nat_tunnel"
version = "0.1.0"
edition = "2021"
publish = false

[dependencies]
bytes = "1"
tokio-util = { version = "0.7", features = ["codec"] }
tokio = { version = "1", features = ["full"] }
tokio-serde = { version = "0.9", features = ["json"] }
tokio-openssl = "0.6"
openssl = "0.10"
serde = { version = "1", features = ["derive"] }
clap = { version = "4", features = ["derive"] }
env_logger = "0.11"
log = "0.4"
futures = "0.3"
