[package]
name = "dashpipe"
version = "0.1.0"
edition = "2021"
publish = false

[dependencies]
anyhow = "1"
clap = "2"
env_logger = "0.9"
fork = "0.1"
futures-util = { version = "0.3", features = ["sink", "io"] }
log = "0.4"
serde = { version = "1", features = ["derive"] }
serde_json = "1"
serde_with = "1"
thiserror = "1"
tokio = { version = "1", features = ["full"] }
tokio-tungstenite = "0.17"
tokio-util = { version = "0.7", features = ["compat", "io"] }
