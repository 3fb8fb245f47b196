[package]
name = "widget_stream"
version = "0.1.0"
edition = "2021"
publish = false

[dependencies]
sysinfo = "*"
tokio = { version = "*", features = ["rt", "time", "macros"] }
tokio-stream = "*"
async-stream = "*"
anyhow = "*"
