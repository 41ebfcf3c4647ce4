[package]
name = "jsight_gate"
version = "0.1.0"
edition = "2021"
publish = false

[dependencies]
chrono = "*"
http = "*"
http-body-util = "*"
hyper = { version = "*", features = ["http1", "server"] }
hyper-util = { version = "*", features = ["tokio"] }
libc = "*"
libloading = "*"
tokio = { version = "*", features = ["rt-multi-thread", "net", "macros"] }
