[package]
name = "dice_cli"
version = "0.1.0"
edition = "2021"
publish = false

[dependencies]
clap = { version = "4", features = ["derive"] }
mongodb = "2"
reqwest = "0.11"
serde_json = "1"
tokio = { version = "1", features = ["full"] }
