[package]
name = "rusgit"
version = "0.9.0"
edition = "2021"
publish = false

[dependencies]
clap = { version = "3", features = ["derive"] }
hyper = { version = "0.14", features = ["full"] }
hyper-tls = "0.5"
scopeguard = "1"
serde_json = "1"
tokio = { version = "1", features = ["full"] }
urlencoding = "2"
