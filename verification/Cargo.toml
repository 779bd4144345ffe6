[package]
name = "slipway_registry"
version = "0.1.0"
edition = "2021"
publish = false

[dependencies]
actix-web = "4"
anyhow = "1"
prometheus = "*"
time = { version = "0.3", features = ["formatting"] }
tokio = { version = "1", features = ["rt"] }
tracing = "0.1"
tracing-loki = "*"
tracing-subscriber = { version = "0.3", features = ["env-filter"] }
url = "2"
