[package]
name = "scampi"
version = "0.1.0"
edition = "2021"
publish = false

[dependencies]
toml = "0.8"
dirs = "6"
log = "0.4"
simplelog = "0.12"
serde = { version = "1", features = ["derive"] }
serde_json = "1"
clap = { version = "4", features = ["derive"] }
tokio = { version = "1", features = ["rt-multi-thread"] }
neo4rs = "0.8"
mongodb = { version = "3", features = ["sync"] }
