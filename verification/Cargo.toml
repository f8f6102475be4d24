[package]
name = "enturion"
version = "0.1.0"
edition = "2021"
publish = false

[dependencies]
tokio = { version = "*", features = ["rt-multi-thread", "net", "time", "io-util", "sync", "signal", "macros"] }
log = "*"
log4rs = "*"
console = "*"
anyhow = "*"
bytes = "*"
