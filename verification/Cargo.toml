[package]
name = "tachyon"
version = "0.1.0"
edition = "2021"
publish = false

[dependencies]
dashmap = "*"
serde_json = "*"
bytes = "*"
http-body-util = "*"
hyper = { version = "*", features = ["http1", "server"] }
hyper-util = { version = "*", features = ["tokio"] }
tokio = { version = "*", features = ["rt-multi-thread", "net", "time", "macros"] }
