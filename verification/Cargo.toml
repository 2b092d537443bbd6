[package]
name = "telemetrio"
version = "0.1.0"
edition = "2021"
publish = false

[dependencies]
tracing = "*"
tracing-subscriber = { version = "*", features = ["env-filter"] }
tracing-log = "*"
tracing-bunyan-formatter = "*"
log = "*"
tokio = { version = "*", features = ["rt"] }
