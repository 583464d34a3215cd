[package]
name = "topic_relay"
version = "0.1.0"
edition = "2021"
publish = false

[dependencies]
clap = { version = "*", features = ["derive"] }
figment = { version = "*", features = ["toml"] }
kafka = "*"
serde = { version = "*", features = ["derive"] }
